//! Still-image formats — standard photo formats plus a curated camera-RAW family.
//!
//! Open: a name this build does not enumerate is carried by [`Format::Other`] in its ASCII lower
//! case. The canonical slug ([`Format::as_str`]) is the format's name, which is not always its
//! on-disk extension: [`Format::as_extension`] and [`Format::extensions`] are the extension face,
//! and the parse accepts every name and every extension, in any ASCII case.
use vstd::prelude::*;
use vstd::std_specs::cmp::PartialEqSpecImpl;
use crate::parse::{
    Term, parse_spelled, parse_spelling, term_text, fold_owned, well_formed_roster,
    lemma_spelled_named, lemma_spelled_idempotent, text_key,
};
use crate::text::{str_equal, lower, upper};

verus! {

/// Still-image format. Not FFmpeg-coded; the escape keeps an unrecognised name.
#[derive(Debug, Clone, Eq, Hash)]
pub enum Format {
    /// Joint Photographic Experts Group (`.jpg`; `.jpeg` and `.jpe` are aliases).
    Jpeg,
    /// Portable Network Graphics (`.png`).
    Png,
    /// High Efficiency Image Format, the generic ISOBMFF still-image container (`.heif`).
    Heif,
    /// High Efficiency Image Format, HEVC-coded (`.heic`). `.hif` is neither this nor `Heif`.
    Heic,
    /// AV1 Image File Format (`.avif`).
    Avif,
    /// Tagged Image File Format (`.tif`; `.tiff` is an alias).
    Tiff,
    /// Google WebP (`.webp`).
    Webp,
    /// CompuServe Graphics Interchange Format (`.gif`).
    Gif,
    /// Windows Bitmap (`.bmp`; `.dib` is an alias).
    Bmp,
    /// Adobe Digital Negative (`.dng`).
    Dng,
    /// Canon RAW 2 (`.cr2`).
    Cr2,
    /// Canon RAW 3 (`.cr3`).
    Cr3,
    /// Nikon Electronic Format (`.nef`).
    Nef,
    /// Nikon RAW, second extension (`.nrw`).
    Nrw,
    /// Sony Alpha RAW (`.arw`).
    Arw,
    /// Olympus / OM System RAW (`.orf`; `.ori` is an alias).
    Orf,
    /// Panasonic RAW 2 (`.rw2`).
    Rw2,
    /// FujiFilm RAW (`.raf`).
    Raf,
    /// Pentax Electronic Format (`.pef`).
    Pef,
    /// Samsung RAW (`.srw`).
    Srw,
    /// Leica RAW (`.rwl`).
    Rwl,
    /// Phase One Intelligent Image Quality RAW (`.iiq`).
    Iiq,
    /// Hasselblad RAW (`.3fr`); the slug is `3fr`.
    Threefr,
    /// Sigma RAW (`.x3f`).
    X3f,
    /// Minolta RAW (`.mrw`).
    Mrw,
    /// GoPro General Purpose RAW (`.gpr`).
    Gpr,
    /// A format not enumerated above, carried by its folded name.
    Other(String),
}

/// The canonical name of every format this vocabulary names, in roster order.
pub const FORMAT_SLUGS: [&'static str; 26] = [
    "jpeg",
    "png",
    "heif",
    "heic",
    "avif",
    "tiff",
    "webp",
    "gif",
    "bmp",
    "dng",
    "cr2",
    "cr3",
    "nef",
    "nrw",
    "arw",
    "orf",
    "rw2",
    "raf",
    "pef",
    "srw",
    "rwl",
    "iiq",
    "3fr",
    "x3f",
    "mrw",
    "gpr",
];

/// Every spelling the parse accepts — the names in roster order, then the alias extensions —
/// and the roster position each stands for.
pub const FORMAT_SPELLINGS: [(&'static str, usize); 31] = [
    ("jpeg", 0),
    ("png", 1),
    ("heif", 2),
    ("heic", 3),
    ("avif", 4),
    ("tiff", 5),
    ("webp", 6),
    ("gif", 7),
    ("bmp", 8),
    ("dng", 9),
    ("cr2", 10),
    ("cr3", 11),
    ("nef", 12),
    ("nrw", 13),
    ("arw", 14),
    ("orf", 15),
    ("rw2", 16),
    ("raf", 17),
    ("pef", 18),
    ("srw", 19),
    ("rwl", 20),
    ("iiq", 21),
    ("3fr", 22),
    ("x3f", 23),
    ("mrw", 24),
    ("gpr", 25),
    ("jpg", 0),
    ("jpe", 0),
    ("tif", 5),
    ("dib", 8),
    ("ori", 15),
];

/// The on-disk spellings of `Jpeg`.
pub const EXTENSIONS_JPEG: [&'static str; 3] = ["jpg", "jpeg", "jpe"];
/// The on-disk spellings of `Png`.
pub const EXTENSIONS_PNG: [&'static str; 1] = ["png"];
/// The on-disk spellings of `Heif`.
pub const EXTENSIONS_HEIF: [&'static str; 1] = ["heif"];
/// The on-disk spellings of `Heic`.
pub const EXTENSIONS_HEIC: [&'static str; 1] = ["heic"];
/// The on-disk spellings of `Avif`.
pub const EXTENSIONS_AVIF: [&'static str; 1] = ["avif"];
/// The on-disk spellings of `Tiff`.
pub const EXTENSIONS_TIFF: [&'static str; 2] = ["tif", "tiff"];
/// The on-disk spellings of `Webp`.
pub const EXTENSIONS_WEBP: [&'static str; 1] = ["webp"];
/// The on-disk spellings of `Gif`.
pub const EXTENSIONS_GIF: [&'static str; 1] = ["gif"];
/// The on-disk spellings of `Bmp`.
pub const EXTENSIONS_BMP: [&'static str; 2] = ["bmp", "dib"];
/// The on-disk spellings of `Dng`.
pub const EXTENSIONS_DNG: [&'static str; 1] = ["dng"];
/// The on-disk spellings of `Cr2`.
pub const EXTENSIONS_CR2: [&'static str; 1] = ["cr2"];
/// The on-disk spellings of `Cr3`.
pub const EXTENSIONS_CR3: [&'static str; 1] = ["cr3"];
/// The on-disk spellings of `Nef`.
pub const EXTENSIONS_NEF: [&'static str; 1] = ["nef"];
/// The on-disk spellings of `Nrw`.
pub const EXTENSIONS_NRW: [&'static str; 1] = ["nrw"];
/// The on-disk spellings of `Arw`.
pub const EXTENSIONS_ARW: [&'static str; 1] = ["arw"];
/// The on-disk spellings of `Orf`.
pub const EXTENSIONS_ORF: [&'static str; 2] = ["orf", "ori"];
/// The on-disk spellings of `Rw2`.
pub const EXTENSIONS_RW2: [&'static str; 1] = ["rw2"];
/// The on-disk spellings of `Raf`.
pub const EXTENSIONS_RAF: [&'static str; 1] = ["raf"];
/// The on-disk spellings of `Pef`.
pub const EXTENSIONS_PEF: [&'static str; 1] = ["pef"];
/// The on-disk spellings of `Srw`.
pub const EXTENSIONS_SRW: [&'static str; 1] = ["srw"];
/// The on-disk spellings of `Rwl`.
pub const EXTENSIONS_RWL: [&'static str; 1] = ["rwl"];
/// The on-disk spellings of `Iiq`.
pub const EXTENSIONS_IIQ: [&'static str; 1] = ["iiq"];
/// The on-disk spellings of `Threefr`.
pub const EXTENSIONS_THREEFR: [&'static str; 1] = ["3fr"];
/// The on-disk spellings of `X3f`.
pub const EXTENSIONS_X3F: [&'static str; 1] = ["x3f"];
/// The on-disk spellings of `Mrw`.
pub const EXTENSIONS_MRW: [&'static str; 1] = ["mrw"];
/// The on-disk spellings of `Gpr`.
pub const EXTENSIONS_GPR: [&'static str; 1] = ["gpr"];
/// No on-disk spelling.
pub const EXTENSIONS_OTHER: [&'static str; 0] = [];

/// The roster's names, as text.
pub open spec fn format_slugs() -> Seq<Seq<char>> {
    FORMAT_SLUGS@.map_values(|s: &'static str| s@)
}

impl View for Format {
    type V = Term;

    open spec fn view(&self) -> Term {
        match self {
            Format::Jpeg => Term::Named(0),
            Format::Png => Term::Named(1),
            Format::Heif => Term::Named(2),
            Format::Heic => Term::Named(3),
            Format::Avif => Term::Named(4),
            Format::Tiff => Term::Named(5),
            Format::Webp => Term::Named(6),
            Format::Gif => Term::Named(7),
            Format::Bmp => Term::Named(8),
            Format::Dng => Term::Named(9),
            Format::Cr2 => Term::Named(10),
            Format::Cr3 => Term::Named(11),
            Format::Nef => Term::Named(12),
            Format::Nrw => Term::Named(13),
            Format::Arw => Term::Named(14),
            Format::Orf => Term::Named(15),
            Format::Rw2 => Term::Named(16),
            Format::Raf => Term::Named(17),
            Format::Pef => Term::Named(18),
            Format::Srw => Term::Named(19),
            Format::Rwl => Term::Named(20),
            Format::Iiq => Term::Named(21),
            Format::Threefr => Term::Named(22),
            Format::X3f => Term::Named(23),
            Format::Mrw => Term::Named(24),
            Format::Gpr => Term::Named(25),
            Format::Other(s) => Term::Other(s@),
        }
    }
}

/// The on-disk spellings of a format, canonical first; none for an unnamed name.
pub open spec fn format_extensions(t: Term) -> Seq<&'static str> {
    match t {
        Term::Named(i) => {
            if i == 0 {
                EXTENSIONS_JPEG@
            } else if i == 1 {
                EXTENSIONS_PNG@
            } else if i == 2 {
                EXTENSIONS_HEIF@
            } else if i == 3 {
                EXTENSIONS_HEIC@
            } else if i == 4 {
                EXTENSIONS_AVIF@
            } else if i == 5 {
                EXTENSIONS_TIFF@
            } else if i == 6 {
                EXTENSIONS_WEBP@
            } else if i == 7 {
                EXTENSIONS_GIF@
            } else if i == 8 {
                EXTENSIONS_BMP@
            } else if i == 9 {
                EXTENSIONS_DNG@
            } else if i == 10 {
                EXTENSIONS_CR2@
            } else if i == 11 {
                EXTENSIONS_CR3@
            } else if i == 12 {
                EXTENSIONS_NEF@
            } else if i == 13 {
                EXTENSIONS_NRW@
            } else if i == 14 {
                EXTENSIONS_ARW@
            } else if i == 15 {
                EXTENSIONS_ORF@
            } else if i == 16 {
                EXTENSIONS_RW2@
            } else if i == 17 {
                EXTENSIONS_RAF@
            } else if i == 18 {
                EXTENSIONS_PEF@
            } else if i == 19 {
                EXTENSIONS_SRW@
            } else if i == 20 {
                EXTENSIONS_RWL@
            } else if i == 21 {
                EXTENSIONS_IIQ@
            } else if i == 22 {
                EXTENSIONS_THREEFR@
            } else if i == 23 {
                EXTENSIONS_X3F@
            } else if i == 24 {
                EXTENSIONS_MRW@
            } else if i == 25 {
                EXTENSIONS_GPR@
            } else {
                EXTENSIONS_OTHER@
            }
        },
        Term::Other(_) => EXTENSIONS_OTHER@,
    }
}

impl Format {
    fn from_index(i: usize) -> (r: Self)
        requires
            i < 26,
        ensures
            r@ == Term::Named(i as nat),
    {
        match i {
            0 => Format::Jpeg,
            1 => Format::Png,
            2 => Format::Heif,
            3 => Format::Heic,
            4 => Format::Avif,
            5 => Format::Tiff,
            6 => Format::Webp,
            7 => Format::Gif,
            8 => Format::Bmp,
            9 => Format::Dng,
            10 => Format::Cr2,
            11 => Format::Cr3,
            12 => Format::Nef,
            13 => Format::Nrw,
            14 => Format::Arw,
            15 => Format::Orf,
            16 => Format::Rw2,
            17 => Format::Raf,
            18 => Format::Pef,
            19 => Format::Srw,
            20 => Format::Rwl,
            21 => Format::Iiq,
            22 => Format::Threefr,
            23 => Format::X3f,
            24 => Format::Mrw,
            _ => Format::Gpr,
        }
    }

    /// The canonical format name (`"jpeg"`, `"heif"`, `"3fr"`); [`Self::Other`] renders the name
    /// it carries.
    pub fn as_str(&self) -> (r: &str)
        ensures
            r@ == term_text(format_slugs(), self@),
    {
        match self {
            Format::Jpeg => FORMAT_SLUGS[0],
            Format::Png => FORMAT_SLUGS[1],
            Format::Heif => FORMAT_SLUGS[2],
            Format::Heic => FORMAT_SLUGS[3],
            Format::Avif => FORMAT_SLUGS[4],
            Format::Tiff => FORMAT_SLUGS[5],
            Format::Webp => FORMAT_SLUGS[6],
            Format::Gif => FORMAT_SLUGS[7],
            Format::Bmp => FORMAT_SLUGS[8],
            Format::Dng => FORMAT_SLUGS[9],
            Format::Cr2 => FORMAT_SLUGS[10],
            Format::Cr3 => FORMAT_SLUGS[11],
            Format::Nef => FORMAT_SLUGS[12],
            Format::Nrw => FORMAT_SLUGS[13],
            Format::Arw => FORMAT_SLUGS[14],
            Format::Orf => FORMAT_SLUGS[15],
            Format::Rw2 => FORMAT_SLUGS[16],
            Format::Raf => FORMAT_SLUGS[17],
            Format::Pef => FORMAT_SLUGS[18],
            Format::Srw => FORMAT_SLUGS[19],
            Format::Rwl => FORMAT_SLUGS[20],
            Format::Iiq => FORMAT_SLUGS[21],
            Format::Threefr => FORMAT_SLUGS[22],
            Format::X3f => FORMAT_SLUGS[23],
            Format::Mrw => FORMAT_SLUGS[24],
            Format::Gpr => FORMAT_SLUGS[25],
            Format::Other(s) => s.as_str(),
        }
    }

    /// The primary on-disk extension, without the dot (`"jpg"`, `"tif"`) — the first of
    /// [`Self::extensions`]; `""` for [`Self::Other`], whose extension is unknown.
    pub fn as_extension(&self) -> (r: &'static str)
        ensures
            self@ is Named ==> r == format_extensions(self@)[0],
            self@ is Other ==> r@ == Seq::<char>::empty(),
    {
        match self {
            Format::Jpeg => EXTENSIONS_JPEG[0],
            Format::Png => EXTENSIONS_PNG[0],
            Format::Heif => EXTENSIONS_HEIF[0],
            Format::Heic => EXTENSIONS_HEIC[0],
            Format::Avif => EXTENSIONS_AVIF[0],
            Format::Tiff => EXTENSIONS_TIFF[0],
            Format::Webp => EXTENSIONS_WEBP[0],
            Format::Gif => EXTENSIONS_GIF[0],
            Format::Bmp => EXTENSIONS_BMP[0],
            Format::Dng => EXTENSIONS_DNG[0],
            Format::Cr2 => EXTENSIONS_CR2[0],
            Format::Cr3 => EXTENSIONS_CR3[0],
            Format::Nef => EXTENSIONS_NEF[0],
            Format::Nrw => EXTENSIONS_NRW[0],
            Format::Arw => EXTENSIONS_ARW[0],
            Format::Orf => EXTENSIONS_ORF[0],
            Format::Rw2 => EXTENSIONS_RW2[0],
            Format::Raf => EXTENSIONS_RAF[0],
            Format::Pef => EXTENSIONS_PEF[0],
            Format::Srw => EXTENSIONS_SRW[0],
            Format::Rwl => EXTENSIONS_RWL[0],
            Format::Iiq => EXTENSIONS_IIQ[0],
            Format::Threefr => EXTENSIONS_THREEFR[0],
            Format::X3f => EXTENSIONS_X3F[0],
            Format::Mrw => EXTENSIONS_MRW[0],
            Format::Gpr => EXTENSIONS_GPR[0],
            Format::Other(_) => {
                proof {
                    reveal_strlit("");
                }
                ""
            },
        }
    }

    /// Every recognised on-disk spelling, canonical first and aliases after; empty for
    /// [`Self::Other`].
    pub fn extensions(&self) -> (r: &'static [&'static str])
        ensures
            r@ == format_extensions(self@),
    {
        match self {
            Format::Jpeg => EXTENSIONS_JPEG.as_slice(),
            Format::Png => EXTENSIONS_PNG.as_slice(),
            Format::Heif => EXTENSIONS_HEIF.as_slice(),
            Format::Heic => EXTENSIONS_HEIC.as_slice(),
            Format::Avif => EXTENSIONS_AVIF.as_slice(),
            Format::Tiff => EXTENSIONS_TIFF.as_slice(),
            Format::Webp => EXTENSIONS_WEBP.as_slice(),
            Format::Gif => EXTENSIONS_GIF.as_slice(),
            Format::Bmp => EXTENSIONS_BMP.as_slice(),
            Format::Dng => EXTENSIONS_DNG.as_slice(),
            Format::Cr2 => EXTENSIONS_CR2.as_slice(),
            Format::Cr3 => EXTENSIONS_CR3.as_slice(),
            Format::Nef => EXTENSIONS_NEF.as_slice(),
            Format::Nrw => EXTENSIONS_NRW.as_slice(),
            Format::Arw => EXTENSIONS_ARW.as_slice(),
            Format::Orf => EXTENSIONS_ORF.as_slice(),
            Format::Rw2 => EXTENSIONS_RW2.as_slice(),
            Format::Raf => EXTENSIONS_RAF.as_slice(),
            Format::Pef => EXTENSIONS_PEF.as_slice(),
            Format::Srw => EXTENSIONS_SRW.as_slice(),
            Format::Rwl => EXTENSIONS_RWL.as_slice(),
            Format::Iiq => EXTENSIONS_IIQ.as_slice(),
            Format::Threefr => EXTENSIONS_THREEFR.as_slice(),
            Format::X3f => EXTENSIONS_X3F.as_slice(),
            Format::Mrw => EXTENSIONS_MRW.as_slice(),
            Format::Gpr => EXTENSIONS_GPR.as_slice(),
            Format::Other(_) => EXTENSIONS_OTHER.as_slice(),
        }
    }

    /// The open escape: `slug` held in its ASCII lower case as [`Self::Other`].
    pub fn other(slug: &str) -> (r: Self)
        ensures
            r@ == Term::Other(lower(slug@)),
    {
        Format::Other(fold_owned(slug))
    }

    /// The ignore-case parse: the format one of whose names or extensions this is, or else
    /// [`Self::other`] of it. Total.
    pub fn parse(s: &str) -> (r: Self)
        ensures
            r@ == parse_spelled(FORMAT_SPELLINGS@, s@),
    {
        match parse_spelling(FORMAT_SPELLINGS.as_slice(), s) {
            Ok(i) => {
                proof {
                    lemma_format_spellings_in_range();
                    crate::parse::lemma_spelling_index(FORMAT_SPELLINGS@, lower(s@));
                }
                Format::from_index(i)
            },
            Err(name) => Format::Other(name),
        }
    }

    /// Is this [`Self::Jpeg`]?
    pub fn is_jpeg(&self) -> (r: bool)
        ensures
            r == (self@ == Term::Named(0)),
    {
        matches!(self, Format::Jpeg)
    }

    /// Is this [`Self::Png`]?
    pub fn is_png(&self) -> (r: bool)
        ensures
            r == (self@ == Term::Named(1)),
    {
        matches!(self, Format::Png)
    }

    /// Is this [`Self::Heif`]?
    pub fn is_heif(&self) -> (r: bool)
        ensures
            r == (self@ == Term::Named(2)),
    {
        matches!(self, Format::Heif)
    }

    /// Is this [`Self::Heic`]?
    pub fn is_heic(&self) -> (r: bool)
        ensures
            r == (self@ == Term::Named(3)),
    {
        matches!(self, Format::Heic)
    }

    /// Is this [`Self::Avif`]?
    pub fn is_avif(&self) -> (r: bool)
        ensures
            r == (self@ == Term::Named(4)),
    {
        matches!(self, Format::Avif)
    }

    /// Is this [`Self::Tiff`]?
    pub fn is_tiff(&self) -> (r: bool)
        ensures
            r == (self@ == Term::Named(5)),
    {
        matches!(self, Format::Tiff)
    }

    /// Is this [`Self::Webp`]?
    pub fn is_webp(&self) -> (r: bool)
        ensures
            r == (self@ == Term::Named(6)),
    {
        matches!(self, Format::Webp)
    }

    /// Is this [`Self::Gif`]?
    pub fn is_gif(&self) -> (r: bool)
        ensures
            r == (self@ == Term::Named(7)),
    {
        matches!(self, Format::Gif)
    }

    /// Is this [`Self::Bmp`]?
    pub fn is_bmp(&self) -> (r: bool)
        ensures
            r == (self@ == Term::Named(8)),
    {
        matches!(self, Format::Bmp)
    }

    /// Is this [`Self::Dng`]?
    pub fn is_dng(&self) -> (r: bool)
        ensures
            r == (self@ == Term::Named(9)),
    {
        matches!(self, Format::Dng)
    }

    /// Is this [`Self::Cr2`]?
    pub fn is_cr2(&self) -> (r: bool)
        ensures
            r == (self@ == Term::Named(10)),
    {
        matches!(self, Format::Cr2)
    }

    /// Is this [`Self::Cr3`]?
    pub fn is_cr3(&self) -> (r: bool)
        ensures
            r == (self@ == Term::Named(11)),
    {
        matches!(self, Format::Cr3)
    }

    /// Is this [`Self::Nef`]?
    pub fn is_nef(&self) -> (r: bool)
        ensures
            r == (self@ == Term::Named(12)),
    {
        matches!(self, Format::Nef)
    }

    /// Is this [`Self::Nrw`]?
    pub fn is_nrw(&self) -> (r: bool)
        ensures
            r == (self@ == Term::Named(13)),
    {
        matches!(self, Format::Nrw)
    }

    /// Is this [`Self::Arw`]?
    pub fn is_arw(&self) -> (r: bool)
        ensures
            r == (self@ == Term::Named(14)),
    {
        matches!(self, Format::Arw)
    }

    /// Is this [`Self::Orf`]?
    pub fn is_orf(&self) -> (r: bool)
        ensures
            r == (self@ == Term::Named(15)),
    {
        matches!(self, Format::Orf)
    }

    /// Is this [`Self::Rw2`]?
    pub fn is_rw2(&self) -> (r: bool)
        ensures
            r == (self@ == Term::Named(16)),
    {
        matches!(self, Format::Rw2)
    }

    /// Is this [`Self::Raf`]?
    pub fn is_raf(&self) -> (r: bool)
        ensures
            r == (self@ == Term::Named(17)),
    {
        matches!(self, Format::Raf)
    }

    /// Is this [`Self::Pef`]?
    pub fn is_pef(&self) -> (r: bool)
        ensures
            r == (self@ == Term::Named(18)),
    {
        matches!(self, Format::Pef)
    }

    /// Is this [`Self::Srw`]?
    pub fn is_srw(&self) -> (r: bool)
        ensures
            r == (self@ == Term::Named(19)),
    {
        matches!(self, Format::Srw)
    }

    /// Is this [`Self::Rwl`]?
    pub fn is_rwl(&self) -> (r: bool)
        ensures
            r == (self@ == Term::Named(20)),
    {
        matches!(self, Format::Rwl)
    }

    /// Is this [`Self::Iiq`]?
    pub fn is_iiq(&self) -> (r: bool)
        ensures
            r == (self@ == Term::Named(21)),
    {
        matches!(self, Format::Iiq)
    }

    /// Is this [`Self::Threefr`]?
    pub fn is_threefr(&self) -> (r: bool)
        ensures
            r == (self@ == Term::Named(22)),
    {
        matches!(self, Format::Threefr)
    }

    /// Is this [`Self::X3f`]?
    pub fn is_x3f(&self) -> (r: bool)
        ensures
            r == (self@ == Term::Named(23)),
    {
        matches!(self, Format::X3f)
    }

    /// Is this [`Self::Mrw`]?
    pub fn is_mrw(&self) -> (r: bool)
        ensures
            r == (self@ == Term::Named(24)),
    {
        matches!(self, Format::Mrw)
    }

    /// Is this [`Self::Gpr`]?
    pub fn is_gpr(&self) -> (r: bool)
        ensures
            r == (self@ == Term::Named(25)),
    {
        matches!(self, Format::Gpr)
    }

    /// Is this a name the roster does not carry?
    pub fn is_other(&self) -> (r: bool)
        ensures
            r == (self@ is Other),
    {
        matches!(self, Format::Other(_))
    }

    fn index(&self) -> (r: usize)
        ensures
            self@ matches Term::Named(i) ==> r == i,
            self@ is Other ==> r == 26,
    {
        match self {
            Format::Jpeg => 0,
            Format::Png => 1,
            Format::Heif => 2,
            Format::Heic => 3,
            Format::Avif => 4,
            Format::Tiff => 5,
            Format::Webp => 6,
            Format::Gif => 7,
            Format::Bmp => 8,
            Format::Dng => 9,
            Format::Cr2 => 10,
            Format::Cr3 => 11,
            Format::Nef => 12,
            Format::Nrw => 13,
            Format::Arw => 14,
            Format::Orf => 15,
            Format::Rw2 => 16,
            Format::Raf => 17,
            Format::Pef => 18,
            Format::Srw => 19,
            Format::Rwl => 20,
            Format::Iiq => 21,
            Format::Threefr => 22,
            Format::X3f => 23,
            Format::Mrw => 24,
            Format::Gpr => 25,
            Format::Other(_) => 26,
        }
    }
}

impl Default for Format {
    /// `Other("")` — the wire-zero sentinel.
    fn default() -> (r: Self)
        ensures
            r@ == Term::Other(Seq::<char>::empty()),
    {
        let r = Format::Other(String::new());
        r
    }
}

impl PartialEq for Format {
    fn eq(&self, other: &Self) -> (r: bool) {
        match (self, other) {
            (Format::Other(a), Format::Other(b)) => str_equal(a.as_str(), b.as_str()),
            (Format::Other(_), _) => false,
            (_, Format::Other(_)) => false,
            _ => self.index() == other.index(),
        }
    }
}

impl PartialEqSpecImpl for Format {
    open spec fn obeys_eq_spec() -> bool {
        true
    }

    open spec fn eq_spec(&self, other: &Self) -> bool {
        self@ == other@
    }
}

impl core::str::FromStr for Format {
    type Err = core::convert::Infallible;

    fn from_str(s: &str) -> Result<Self, Self::Err> {
        Ok(Format::parse(s))
    }
}

/// Every spelling stands for a roster member.
proof fn lemma_format_spellings_in_range()
    ensures
        forall|k: int| 0 <= k < FORMAT_SPELLINGS@.len() ==> (#[trigger] FORMAT_SPELLINGS@[k]).1 < 26,
{
    assert forall|k: int| 0 <= k < FORMAT_SPELLINGS@.len() implies (#[trigger] FORMAT_SPELLINGS@[k]).1 < 26 by {
        if k == 0 {
            assert(FORMAT_SPELLINGS@[0].1 == 0);
        } else if k == 1 {
            assert(FORMAT_SPELLINGS@[1].1 == 1);
        } else if k == 2 {
            assert(FORMAT_SPELLINGS@[2].1 == 2);
        } else if k == 3 {
            assert(FORMAT_SPELLINGS@[3].1 == 3);
        } else if k == 4 {
            assert(FORMAT_SPELLINGS@[4].1 == 4);
        } else if k == 5 {
            assert(FORMAT_SPELLINGS@[5].1 == 5);
        } else if k == 6 {
            assert(FORMAT_SPELLINGS@[6].1 == 6);
        } else if k == 7 {
            assert(FORMAT_SPELLINGS@[7].1 == 7);
        } else if k == 8 {
            assert(FORMAT_SPELLINGS@[8].1 == 8);
        } else if k == 9 {
            assert(FORMAT_SPELLINGS@[9].1 == 9);
        } else if k == 10 {
            assert(FORMAT_SPELLINGS@[10].1 == 10);
        } else if k == 11 {
            assert(FORMAT_SPELLINGS@[11].1 == 11);
        } else if k == 12 {
            assert(FORMAT_SPELLINGS@[12].1 == 12);
        } else if k == 13 {
            assert(FORMAT_SPELLINGS@[13].1 == 13);
        } else if k == 14 {
            assert(FORMAT_SPELLINGS@[14].1 == 14);
        } else if k == 15 {
            assert(FORMAT_SPELLINGS@[15].1 == 15);
        } else if k == 16 {
            assert(FORMAT_SPELLINGS@[16].1 == 16);
        } else if k == 17 {
            assert(FORMAT_SPELLINGS@[17].1 == 17);
        } else if k == 18 {
            assert(FORMAT_SPELLINGS@[18].1 == 18);
        } else if k == 19 {
            assert(FORMAT_SPELLINGS@[19].1 == 19);
        } else if k == 20 {
            assert(FORMAT_SPELLINGS@[20].1 == 20);
        } else if k == 21 {
            assert(FORMAT_SPELLINGS@[21].1 == 21);
        } else if k == 22 {
            assert(FORMAT_SPELLINGS@[22].1 == 22);
        } else if k == 23 {
            assert(FORMAT_SPELLINGS@[23].1 == 23);
        } else if k == 24 {
            assert(FORMAT_SPELLINGS@[24].1 == 24);
        } else if k == 25 {
            assert(FORMAT_SPELLINGS@[25].1 == 25);
        } else if k == 26 {
            assert(FORMAT_SPELLINGS@[26].1 == 0);
        } else if k == 27 {
            assert(FORMAT_SPELLINGS@[27].1 == 0);
        } else if k == 28 {
            assert(FORMAT_SPELLINGS@[28].1 == 5);
        } else if k == 29 {
            assert(FORMAT_SPELLINGS@[29].1 == 8);
        } else if k == 30 {
            assert(FORMAT_SPELLINGS@[30].1 == 15);
        }
    }
}


/// The image format roster is lowercase-canonical and spells no two members alike.
pub proof fn lemma_format_slugs_well_formed()
    ensures
        well_formed_roster(format_slugs()),
{
    reveal_strlit("jpeg");
    reveal_strlit("png");
    reveal_strlit("heif");
    reveal_strlit("heic");
    reveal_strlit("avif");
    reveal_strlit("tiff");
    reveal_strlit("webp");
    reveal_strlit("gif");
    reveal_strlit("bmp");
    reveal_strlit("dng");
    reveal_strlit("cr2");
    reveal_strlit("cr3");
    reveal_strlit("nef");
    reveal_strlit("nrw");
    reveal_strlit("arw");
    reveal_strlit("orf");
    reveal_strlit("rw2");
    reveal_strlit("raf");
    reveal_strlit("pef");
    reveal_strlit("srw");
    reveal_strlit("rwl");
    reveal_strlit("iiq");
    reveal_strlit("3fr");
    reveal_strlit("x3f");
    reveal_strlit("mrw");
    reveal_strlit("gpr");
    let s = format_slugs();
    assert(s.len() == 26);
    assert forall|i: int| 0 <= i < s.len() implies lower(#[trigger] s[i]) == s[i] by {
        if i == 0 {
            assert(lower(s[0]) =~= s[0]);
        } else if i == 1 {
            assert(lower(s[1]) =~= s[1]);
        } else if i == 2 {
            assert(lower(s[2]) =~= s[2]);
        } else if i == 3 {
            assert(lower(s[3]) =~= s[3]);
        } else if i == 4 {
            assert(lower(s[4]) =~= s[4]);
        } else if i == 5 {
            assert(lower(s[5]) =~= s[5]);
        } else if i == 6 {
            assert(lower(s[6]) =~= s[6]);
        } else if i == 7 {
            assert(lower(s[7]) =~= s[7]);
        } else if i == 8 {
            assert(lower(s[8]) =~= s[8]);
        } else if i == 9 {
            assert(lower(s[9]) =~= s[9]);
        } else if i == 10 {
            assert(lower(s[10]) =~= s[10]);
        } else if i == 11 {
            assert(lower(s[11]) =~= s[11]);
        } else if i == 12 {
            assert(lower(s[12]) =~= s[12]);
        } else if i == 13 {
            assert(lower(s[13]) =~= s[13]);
        } else if i == 14 {
            assert(lower(s[14]) =~= s[14]);
        } else if i == 15 {
            assert(lower(s[15]) =~= s[15]);
        } else if i == 16 {
            assert(lower(s[16]) =~= s[16]);
        } else if i == 17 {
            assert(lower(s[17]) =~= s[17]);
        } else if i == 18 {
            assert(lower(s[18]) =~= s[18]);
        } else if i == 19 {
            assert(lower(s[19]) =~= s[19]);
        } else if i == 20 {
            assert(lower(s[20]) =~= s[20]);
        } else if i == 21 {
            assert(lower(s[21]) =~= s[21]);
        } else if i == 22 {
            assert(lower(s[22]) =~= s[22]);
        } else if i == 23 {
            assert(lower(s[23]) =~= s[23]);
        } else if i == 24 {
            assert(lower(s[24]) =~= s[24]);
        } else if i == 25 {
            assert(lower(s[25]) =~= s[25]);
        }
    }
    assert forall|i: int, j: int| 0 <= i < j < s.len() implies #[trigger] s[i] != #[trigger] s[j] by {
        if i == 0 && j == 1 {
            assert(s[0] != s[1]);
        } else if i == 0 && j == 2 {
            assert(s[0][0] != s[2][0]);
            assert(s[0] != s[2]);
        } else if i == 0 && j == 3 {
            assert(s[0][0] != s[3][0]);
            assert(s[0] != s[3]);
        } else if i == 0 && j == 4 {
            assert(s[0][0] != s[4][0]);
            assert(s[0] != s[4]);
        } else if i == 0 && j == 5 {
            assert(s[0][0] != s[5][0]);
            assert(s[0] != s[5]);
        } else if i == 0 && j == 6 {
            assert(s[0][0] != s[6][0]);
            assert(s[0] != s[6]);
        } else if i == 0 && j == 7 {
            assert(s[0] != s[7]);
        } else if i == 0 && j == 8 {
            assert(s[0] != s[8]);
        } else if i == 0 && j == 9 {
            assert(s[0] != s[9]);
        } else if i == 0 && j == 10 {
            assert(s[0] != s[10]);
        } else if i == 0 && j == 11 {
            assert(s[0] != s[11]);
        } else if i == 0 && j == 12 {
            assert(s[0] != s[12]);
        } else if i == 0 && j == 13 {
            assert(s[0] != s[13]);
        } else if i == 0 && j == 14 {
            assert(s[0] != s[14]);
        } else if i == 0 && j == 15 {
            assert(s[0] != s[15]);
        } else if i == 0 && j == 16 {
            assert(s[0] != s[16]);
        } else if i == 0 && j == 17 {
            assert(s[0] != s[17]);
        } else if i == 0 && j == 18 {
            assert(s[0] != s[18]);
        } else if i == 0 && j == 19 {
            assert(s[0] != s[19]);
        } else if i == 0 && j == 20 {
            assert(s[0] != s[20]);
        } else if i == 0 && j == 21 {
            assert(s[0] != s[21]);
        } else if i == 0 && j == 22 {
            assert(s[0] != s[22]);
        } else if i == 0 && j == 23 {
            assert(s[0] != s[23]);
        } else if i == 0 && j == 24 {
            assert(s[0] != s[24]);
        } else if i == 0 && j == 25 {
            assert(s[0] != s[25]);
        } else if i == 1 && j == 2 {
            assert(s[1] != s[2]);
        } else if i == 1 && j == 3 {
            assert(s[1] != s[3]);
        } else if i == 1 && j == 4 {
            assert(s[1] != s[4]);
        } else if i == 1 && j == 5 {
            assert(s[1] != s[5]);
        } else if i == 1 && j == 6 {
            assert(s[1] != s[6]);
        } else if i == 1 && j == 7 {
            assert(s[1][0] != s[7][0]);
            assert(s[1] != s[7]);
        } else if i == 1 && j == 8 {
            assert(s[1][0] != s[8][0]);
            assert(s[1] != s[8]);
        } else if i == 1 && j == 9 {
            assert(s[1][0] != s[9][0]);
            assert(s[1] != s[9]);
        } else if i == 1 && j == 10 {
            assert(s[1][0] != s[10][0]);
            assert(s[1] != s[10]);
        } else if i == 1 && j == 11 {
            assert(s[1][0] != s[11][0]);
            assert(s[1] != s[11]);
        } else if i == 1 && j == 12 {
            assert(s[1][0] != s[12][0]);
            assert(s[1] != s[12]);
        } else if i == 1 && j == 13 {
            assert(s[1][0] != s[13][0]);
            assert(s[1] != s[13]);
        } else if i == 1 && j == 14 {
            assert(s[1][0] != s[14][0]);
            assert(s[1] != s[14]);
        } else if i == 1 && j == 15 {
            assert(s[1][0] != s[15][0]);
            assert(s[1] != s[15]);
        } else if i == 1 && j == 16 {
            assert(s[1][0] != s[16][0]);
            assert(s[1] != s[16]);
        } else if i == 1 && j == 17 {
            assert(s[1][0] != s[17][0]);
            assert(s[1] != s[17]);
        } else if i == 1 && j == 18 {
            assert(s[1][1] != s[18][1]);
            assert(s[1] != s[18]);
        } else if i == 1 && j == 19 {
            assert(s[1][0] != s[19][0]);
            assert(s[1] != s[19]);
        } else if i == 1 && j == 20 {
            assert(s[1][0] != s[20][0]);
            assert(s[1] != s[20]);
        } else if i == 1 && j == 21 {
            assert(s[1][0] != s[21][0]);
            assert(s[1] != s[21]);
        } else if i == 1 && j == 22 {
            assert(s[1][0] != s[22][0]);
            assert(s[1] != s[22]);
        } else if i == 1 && j == 23 {
            assert(s[1][0] != s[23][0]);
            assert(s[1] != s[23]);
        } else if i == 1 && j == 24 {
            assert(s[1][0] != s[24][0]);
            assert(s[1] != s[24]);
        } else if i == 1 && j == 25 {
            assert(s[1][0] != s[25][0]);
            assert(s[1] != s[25]);
        } else if i == 2 && j == 3 {
            assert(s[2][3] != s[3][3]);
            assert(s[2] != s[3]);
        } else if i == 2 && j == 4 {
            assert(s[2][0] != s[4][0]);
            assert(s[2] != s[4]);
        } else if i == 2 && j == 5 {
            assert(s[2][0] != s[5][0]);
            assert(s[2] != s[5]);
        } else if i == 2 && j == 6 {
            assert(s[2][0] != s[6][0]);
            assert(s[2] != s[6]);
        } else if i == 2 && j == 7 {
            assert(s[2] != s[7]);
        } else if i == 2 && j == 8 {
            assert(s[2] != s[8]);
        } else if i == 2 && j == 9 {
            assert(s[2] != s[9]);
        } else if i == 2 && j == 10 {
            assert(s[2] != s[10]);
        } else if i == 2 && j == 11 {
            assert(s[2] != s[11]);
        } else if i == 2 && j == 12 {
            assert(s[2] != s[12]);
        } else if i == 2 && j == 13 {
            assert(s[2] != s[13]);
        } else if i == 2 && j == 14 {
            assert(s[2] != s[14]);
        } else if i == 2 && j == 15 {
            assert(s[2] != s[15]);
        } else if i == 2 && j == 16 {
            assert(s[2] != s[16]);
        } else if i == 2 && j == 17 {
            assert(s[2] != s[17]);
        } else if i == 2 && j == 18 {
            assert(s[2] != s[18]);
        } else if i == 2 && j == 19 {
            assert(s[2] != s[19]);
        } else if i == 2 && j == 20 {
            assert(s[2] != s[20]);
        } else if i == 2 && j == 21 {
            assert(s[2] != s[21]);
        } else if i == 2 && j == 22 {
            assert(s[2] != s[22]);
        } else if i == 2 && j == 23 {
            assert(s[2] != s[23]);
        } else if i == 2 && j == 24 {
            assert(s[2] != s[24]);
        } else if i == 2 && j == 25 {
            assert(s[2] != s[25]);
        } else if i == 3 && j == 4 {
            assert(s[3][0] != s[4][0]);
            assert(s[3] != s[4]);
        } else if i == 3 && j == 5 {
            assert(s[3][0] != s[5][0]);
            assert(s[3] != s[5]);
        } else if i == 3 && j == 6 {
            assert(s[3][0] != s[6][0]);
            assert(s[3] != s[6]);
        } else if i == 3 && j == 7 {
            assert(s[3] != s[7]);
        } else if i == 3 && j == 8 {
            assert(s[3] != s[8]);
        } else if i == 3 && j == 9 {
            assert(s[3] != s[9]);
        } else if i == 3 && j == 10 {
            assert(s[3] != s[10]);
        } else if i == 3 && j == 11 {
            assert(s[3] != s[11]);
        } else if i == 3 && j == 12 {
            assert(s[3] != s[12]);
        } else if i == 3 && j == 13 {
            assert(s[3] != s[13]);
        } else if i == 3 && j == 14 {
            assert(s[3] != s[14]);
        } else if i == 3 && j == 15 {
            assert(s[3] != s[15]);
        } else if i == 3 && j == 16 {
            assert(s[3] != s[16]);
        } else if i == 3 && j == 17 {
            assert(s[3] != s[17]);
        } else if i == 3 && j == 18 {
            assert(s[3] != s[18]);
        } else if i == 3 && j == 19 {
            assert(s[3] != s[19]);
        } else if i == 3 && j == 20 {
            assert(s[3] != s[20]);
        } else if i == 3 && j == 21 {
            assert(s[3] != s[21]);
        } else if i == 3 && j == 22 {
            assert(s[3] != s[22]);
        } else if i == 3 && j == 23 {
            assert(s[3] != s[23]);
        } else if i == 3 && j == 24 {
            assert(s[3] != s[24]);
        } else if i == 3 && j == 25 {
            assert(s[3] != s[25]);
        } else if i == 4 && j == 5 {
            assert(s[4][0] != s[5][0]);
            assert(s[4] != s[5]);
        } else if i == 4 && j == 6 {
            assert(s[4][0] != s[6][0]);
            assert(s[4] != s[6]);
        } else if i == 4 && j == 7 {
            assert(s[4] != s[7]);
        } else if i == 4 && j == 8 {
            assert(s[4] != s[8]);
        } else if i == 4 && j == 9 {
            assert(s[4] != s[9]);
        } else if i == 4 && j == 10 {
            assert(s[4] != s[10]);
        } else if i == 4 && j == 11 {
            assert(s[4] != s[11]);
        } else if i == 4 && j == 12 {
            assert(s[4] != s[12]);
        } else if i == 4 && j == 13 {
            assert(s[4] != s[13]);
        } else if i == 4 && j == 14 {
            assert(s[4] != s[14]);
        } else if i == 4 && j == 15 {
            assert(s[4] != s[15]);
        } else if i == 4 && j == 16 {
            assert(s[4] != s[16]);
        } else if i == 4 && j == 17 {
            assert(s[4] != s[17]);
        } else if i == 4 && j == 18 {
            assert(s[4] != s[18]);
        } else if i == 4 && j == 19 {
            assert(s[4] != s[19]);
        } else if i == 4 && j == 20 {
            assert(s[4] != s[20]);
        } else if i == 4 && j == 21 {
            assert(s[4] != s[21]);
        } else if i == 4 && j == 22 {
            assert(s[4] != s[22]);
        } else if i == 4 && j == 23 {
            assert(s[4] != s[23]);
        } else if i == 4 && j == 24 {
            assert(s[4] != s[24]);
        } else if i == 4 && j == 25 {
            assert(s[4] != s[25]);
        } else if i == 5 && j == 6 {
            assert(s[5][0] != s[6][0]);
            assert(s[5] != s[6]);
        } else if i == 5 && j == 7 {
            assert(s[5] != s[7]);
        } else if i == 5 && j == 8 {
            assert(s[5] != s[8]);
        } else if i == 5 && j == 9 {
            assert(s[5] != s[9]);
        } else if i == 5 && j == 10 {
            assert(s[5] != s[10]);
        } else if i == 5 && j == 11 {
            assert(s[5] != s[11]);
        } else if i == 5 && j == 12 {
            assert(s[5] != s[12]);
        } else if i == 5 && j == 13 {
            assert(s[5] != s[13]);
        } else if i == 5 && j == 14 {
            assert(s[5] != s[14]);
        } else if i == 5 && j == 15 {
            assert(s[5] != s[15]);
        } else if i == 5 && j == 16 {
            assert(s[5] != s[16]);
        } else if i == 5 && j == 17 {
            assert(s[5] != s[17]);
        } else if i == 5 && j == 18 {
            assert(s[5] != s[18]);
        } else if i == 5 && j == 19 {
            assert(s[5] != s[19]);
        } else if i == 5 && j == 20 {
            assert(s[5] != s[20]);
        } else if i == 5 && j == 21 {
            assert(s[5] != s[21]);
        } else if i == 5 && j == 22 {
            assert(s[5] != s[22]);
        } else if i == 5 && j == 23 {
            assert(s[5] != s[23]);
        } else if i == 5 && j == 24 {
            assert(s[5] != s[24]);
        } else if i == 5 && j == 25 {
            assert(s[5] != s[25]);
        } else if i == 6 && j == 7 {
            assert(s[6] != s[7]);
        } else if i == 6 && j == 8 {
            assert(s[6] != s[8]);
        } else if i == 6 && j == 9 {
            assert(s[6] != s[9]);
        } else if i == 6 && j == 10 {
            assert(s[6] != s[10]);
        } else if i == 6 && j == 11 {
            assert(s[6] != s[11]);
        } else if i == 6 && j == 12 {
            assert(s[6] != s[12]);
        } else if i == 6 && j == 13 {
            assert(s[6] != s[13]);
        } else if i == 6 && j == 14 {
            assert(s[6] != s[14]);
        } else if i == 6 && j == 15 {
            assert(s[6] != s[15]);
        } else if i == 6 && j == 16 {
            assert(s[6] != s[16]);
        } else if i == 6 && j == 17 {
            assert(s[6] != s[17]);
        } else if i == 6 && j == 18 {
            assert(s[6] != s[18]);
        } else if i == 6 && j == 19 {
            assert(s[6] != s[19]);
        } else if i == 6 && j == 20 {
            assert(s[6] != s[20]);
        } else if i == 6 && j == 21 {
            assert(s[6] != s[21]);
        } else if i == 6 && j == 22 {
            assert(s[6] != s[22]);
        } else if i == 6 && j == 23 {
            assert(s[6] != s[23]);
        } else if i == 6 && j == 24 {
            assert(s[6] != s[24]);
        } else if i == 6 && j == 25 {
            assert(s[6] != s[25]);
        } else if i == 7 && j == 8 {
            assert(s[7][0] != s[8][0]);
            assert(s[7] != s[8]);
        } else if i == 7 && j == 9 {
            assert(s[7][0] != s[9][0]);
            assert(s[7] != s[9]);
        } else if i == 7 && j == 10 {
            assert(s[7][0] != s[10][0]);
            assert(s[7] != s[10]);
        } else if i == 7 && j == 11 {
            assert(s[7][0] != s[11][0]);
            assert(s[7] != s[11]);
        } else if i == 7 && j == 12 {
            assert(s[7][0] != s[12][0]);
            assert(s[7] != s[12]);
        } else if i == 7 && j == 13 {
            assert(s[7][0] != s[13][0]);
            assert(s[7] != s[13]);
        } else if i == 7 && j == 14 {
            assert(s[7][0] != s[14][0]);
            assert(s[7] != s[14]);
        } else if i == 7 && j == 15 {
            assert(s[7][0] != s[15][0]);
            assert(s[7] != s[15]);
        } else if i == 7 && j == 16 {
            assert(s[7][0] != s[16][0]);
            assert(s[7] != s[16]);
        } else if i == 7 && j == 17 {
            assert(s[7][0] != s[17][0]);
            assert(s[7] != s[17]);
        } else if i == 7 && j == 18 {
            assert(s[7][0] != s[18][0]);
            assert(s[7] != s[18]);
        } else if i == 7 && j == 19 {
            assert(s[7][0] != s[19][0]);
            assert(s[7] != s[19]);
        } else if i == 7 && j == 20 {
            assert(s[7][0] != s[20][0]);
            assert(s[7] != s[20]);
        } else if i == 7 && j == 21 {
            assert(s[7][0] != s[21][0]);
            assert(s[7] != s[21]);
        } else if i == 7 && j == 22 {
            assert(s[7][0] != s[22][0]);
            assert(s[7] != s[22]);
        } else if i == 7 && j == 23 {
            assert(s[7][0] != s[23][0]);
            assert(s[7] != s[23]);
        } else if i == 7 && j == 24 {
            assert(s[7][0] != s[24][0]);
            assert(s[7] != s[24]);
        } else if i == 7 && j == 25 {
            assert(s[7][1] != s[25][1]);
            assert(s[7] != s[25]);
        } else if i == 8 && j == 9 {
            assert(s[8][0] != s[9][0]);
            assert(s[8] != s[9]);
        } else if i == 8 && j == 10 {
            assert(s[8][0] != s[10][0]);
            assert(s[8] != s[10]);
        } else if i == 8 && j == 11 {
            assert(s[8][0] != s[11][0]);
            assert(s[8] != s[11]);
        } else if i == 8 && j == 12 {
            assert(s[8][0] != s[12][0]);
            assert(s[8] != s[12]);
        } else if i == 8 && j == 13 {
            assert(s[8][0] != s[13][0]);
            assert(s[8] != s[13]);
        } else if i == 8 && j == 14 {
            assert(s[8][0] != s[14][0]);
            assert(s[8] != s[14]);
        } else if i == 8 && j == 15 {
            assert(s[8][0] != s[15][0]);
            assert(s[8] != s[15]);
        } else if i == 8 && j == 16 {
            assert(s[8][0] != s[16][0]);
            assert(s[8] != s[16]);
        } else if i == 8 && j == 17 {
            assert(s[8][0] != s[17][0]);
            assert(s[8] != s[17]);
        } else if i == 8 && j == 18 {
            assert(s[8][0] != s[18][0]);
            assert(s[8] != s[18]);
        } else if i == 8 && j == 19 {
            assert(s[8][0] != s[19][0]);
            assert(s[8] != s[19]);
        } else if i == 8 && j == 20 {
            assert(s[8][0] != s[20][0]);
            assert(s[8] != s[20]);
        } else if i == 8 && j == 21 {
            assert(s[8][0] != s[21][0]);
            assert(s[8] != s[21]);
        } else if i == 8 && j == 22 {
            assert(s[8][0] != s[22][0]);
            assert(s[8] != s[22]);
        } else if i == 8 && j == 23 {
            assert(s[8][0] != s[23][0]);
            assert(s[8] != s[23]);
        } else if i == 8 && j == 24 {
            assert(s[8][0] != s[24][0]);
            assert(s[8] != s[24]);
        } else if i == 8 && j == 25 {
            assert(s[8][0] != s[25][0]);
            assert(s[8] != s[25]);
        } else if i == 9 && j == 10 {
            assert(s[9][0] != s[10][0]);
            assert(s[9] != s[10]);
        } else if i == 9 && j == 11 {
            assert(s[9][0] != s[11][0]);
            assert(s[9] != s[11]);
        } else if i == 9 && j == 12 {
            assert(s[9][0] != s[12][0]);
            assert(s[9] != s[12]);
        } else if i == 9 && j == 13 {
            assert(s[9][0] != s[13][0]);
            assert(s[9] != s[13]);
        } else if i == 9 && j == 14 {
            assert(s[9][0] != s[14][0]);
            assert(s[9] != s[14]);
        } else if i == 9 && j == 15 {
            assert(s[9][0] != s[15][0]);
            assert(s[9] != s[15]);
        } else if i == 9 && j == 16 {
            assert(s[9][0] != s[16][0]);
            assert(s[9] != s[16]);
        } else if i == 9 && j == 17 {
            assert(s[9][0] != s[17][0]);
            assert(s[9] != s[17]);
        } else if i == 9 && j == 18 {
            assert(s[9][0] != s[18][0]);
            assert(s[9] != s[18]);
        } else if i == 9 && j == 19 {
            assert(s[9][0] != s[19][0]);
            assert(s[9] != s[19]);
        } else if i == 9 && j == 20 {
            assert(s[9][0] != s[20][0]);
            assert(s[9] != s[20]);
        } else if i == 9 && j == 21 {
            assert(s[9][0] != s[21][0]);
            assert(s[9] != s[21]);
        } else if i == 9 && j == 22 {
            assert(s[9][0] != s[22][0]);
            assert(s[9] != s[22]);
        } else if i == 9 && j == 23 {
            assert(s[9][0] != s[23][0]);
            assert(s[9] != s[23]);
        } else if i == 9 && j == 24 {
            assert(s[9][0] != s[24][0]);
            assert(s[9] != s[24]);
        } else if i == 9 && j == 25 {
            assert(s[9][0] != s[25][0]);
            assert(s[9] != s[25]);
        } else if i == 10 && j == 11 {
            assert(s[10][2] != s[11][2]);
            assert(s[10] != s[11]);
        } else if i == 10 && j == 12 {
            assert(s[10][0] != s[12][0]);
            assert(s[10] != s[12]);
        } else if i == 10 && j == 13 {
            assert(s[10][0] != s[13][0]);
            assert(s[10] != s[13]);
        } else if i == 10 && j == 14 {
            assert(s[10][0] != s[14][0]);
            assert(s[10] != s[14]);
        } else if i == 10 && j == 15 {
            assert(s[10][0] != s[15][0]);
            assert(s[10] != s[15]);
        } else if i == 10 && j == 16 {
            assert(s[10][0] != s[16][0]);
            assert(s[10] != s[16]);
        } else if i == 10 && j == 17 {
            assert(s[10][0] != s[17][0]);
            assert(s[10] != s[17]);
        } else if i == 10 && j == 18 {
            assert(s[10][0] != s[18][0]);
            assert(s[10] != s[18]);
        } else if i == 10 && j == 19 {
            assert(s[10][0] != s[19][0]);
            assert(s[10] != s[19]);
        } else if i == 10 && j == 20 {
            assert(s[10][0] != s[20][0]);
            assert(s[10] != s[20]);
        } else if i == 10 && j == 21 {
            assert(s[10][0] != s[21][0]);
            assert(s[10] != s[21]);
        } else if i == 10 && j == 22 {
            assert(s[10][0] != s[22][0]);
            assert(s[10] != s[22]);
        } else if i == 10 && j == 23 {
            assert(s[10][0] != s[23][0]);
            assert(s[10] != s[23]);
        } else if i == 10 && j == 24 {
            assert(s[10][0] != s[24][0]);
            assert(s[10] != s[24]);
        } else if i == 10 && j == 25 {
            assert(s[10][0] != s[25][0]);
            assert(s[10] != s[25]);
        } else if i == 11 && j == 12 {
            assert(s[11][0] != s[12][0]);
            assert(s[11] != s[12]);
        } else if i == 11 && j == 13 {
            assert(s[11][0] != s[13][0]);
            assert(s[11] != s[13]);
        } else if i == 11 && j == 14 {
            assert(s[11][0] != s[14][0]);
            assert(s[11] != s[14]);
        } else if i == 11 && j == 15 {
            assert(s[11][0] != s[15][0]);
            assert(s[11] != s[15]);
        } else if i == 11 && j == 16 {
            assert(s[11][0] != s[16][0]);
            assert(s[11] != s[16]);
        } else if i == 11 && j == 17 {
            assert(s[11][0] != s[17][0]);
            assert(s[11] != s[17]);
        } else if i == 11 && j == 18 {
            assert(s[11][0] != s[18][0]);
            assert(s[11] != s[18]);
        } else if i == 11 && j == 19 {
            assert(s[11][0] != s[19][0]);
            assert(s[11] != s[19]);
        } else if i == 11 && j == 20 {
            assert(s[11][0] != s[20][0]);
            assert(s[11] != s[20]);
        } else if i == 11 && j == 21 {
            assert(s[11][0] != s[21][0]);
            assert(s[11] != s[21]);
        } else if i == 11 && j == 22 {
            assert(s[11][0] != s[22][0]);
            assert(s[11] != s[22]);
        } else if i == 11 && j == 23 {
            assert(s[11][0] != s[23][0]);
            assert(s[11] != s[23]);
        } else if i == 11 && j == 24 {
            assert(s[11][0] != s[24][0]);
            assert(s[11] != s[24]);
        } else if i == 11 && j == 25 {
            assert(s[11][0] != s[25][0]);
            assert(s[11] != s[25]);
        } else if i == 12 && j == 13 {
            assert(s[12][1] != s[13][1]);
            assert(s[12] != s[13]);
        } else if i == 12 && j == 14 {
            assert(s[12][0] != s[14][0]);
            assert(s[12] != s[14]);
        } else if i == 12 && j == 15 {
            assert(s[12][0] != s[15][0]);
            assert(s[12] != s[15]);
        } else if i == 12 && j == 16 {
            assert(s[12][0] != s[16][0]);
            assert(s[12] != s[16]);
        } else if i == 12 && j == 17 {
            assert(s[12][0] != s[17][0]);
            assert(s[12] != s[17]);
        } else if i == 12 && j == 18 {
            assert(s[12][0] != s[18][0]);
            assert(s[12] != s[18]);
        } else if i == 12 && j == 19 {
            assert(s[12][0] != s[19][0]);
            assert(s[12] != s[19]);
        } else if i == 12 && j == 20 {
            assert(s[12][0] != s[20][0]);
            assert(s[12] != s[20]);
        } else if i == 12 && j == 21 {
            assert(s[12][0] != s[21][0]);
            assert(s[12] != s[21]);
        } else if i == 12 && j == 22 {
            assert(s[12][0] != s[22][0]);
            assert(s[12] != s[22]);
        } else if i == 12 && j == 23 {
            assert(s[12][0] != s[23][0]);
            assert(s[12] != s[23]);
        } else if i == 12 && j == 24 {
            assert(s[12][0] != s[24][0]);
            assert(s[12] != s[24]);
        } else if i == 12 && j == 25 {
            assert(s[12][0] != s[25][0]);
            assert(s[12] != s[25]);
        } else if i == 13 && j == 14 {
            assert(s[13][0] != s[14][0]);
            assert(s[13] != s[14]);
        } else if i == 13 && j == 15 {
            assert(s[13][0] != s[15][0]);
            assert(s[13] != s[15]);
        } else if i == 13 && j == 16 {
            assert(s[13][0] != s[16][0]);
            assert(s[13] != s[16]);
        } else if i == 13 && j == 17 {
            assert(s[13][0] != s[17][0]);
            assert(s[13] != s[17]);
        } else if i == 13 && j == 18 {
            assert(s[13][0] != s[18][0]);
            assert(s[13] != s[18]);
        } else if i == 13 && j == 19 {
            assert(s[13][0] != s[19][0]);
            assert(s[13] != s[19]);
        } else if i == 13 && j == 20 {
            assert(s[13][0] != s[20][0]);
            assert(s[13] != s[20]);
        } else if i == 13 && j == 21 {
            assert(s[13][0] != s[21][0]);
            assert(s[13] != s[21]);
        } else if i == 13 && j == 22 {
            assert(s[13][0] != s[22][0]);
            assert(s[13] != s[22]);
        } else if i == 13 && j == 23 {
            assert(s[13][0] != s[23][0]);
            assert(s[13] != s[23]);
        } else if i == 13 && j == 24 {
            assert(s[13][0] != s[24][0]);
            assert(s[13] != s[24]);
        } else if i == 13 && j == 25 {
            assert(s[13][0] != s[25][0]);
            assert(s[13] != s[25]);
        } else if i == 14 && j == 15 {
            assert(s[14][0] != s[15][0]);
            assert(s[14] != s[15]);
        } else if i == 14 && j == 16 {
            assert(s[14][0] != s[16][0]);
            assert(s[14] != s[16]);
        } else if i == 14 && j == 17 {
            assert(s[14][0] != s[17][0]);
            assert(s[14] != s[17]);
        } else if i == 14 && j == 18 {
            assert(s[14][0] != s[18][0]);
            assert(s[14] != s[18]);
        } else if i == 14 && j == 19 {
            assert(s[14][0] != s[19][0]);
            assert(s[14] != s[19]);
        } else if i == 14 && j == 20 {
            assert(s[14][0] != s[20][0]);
            assert(s[14] != s[20]);
        } else if i == 14 && j == 21 {
            assert(s[14][0] != s[21][0]);
            assert(s[14] != s[21]);
        } else if i == 14 && j == 22 {
            assert(s[14][0] != s[22][0]);
            assert(s[14] != s[22]);
        } else if i == 14 && j == 23 {
            assert(s[14][0] != s[23][0]);
            assert(s[14] != s[23]);
        } else if i == 14 && j == 24 {
            assert(s[14][0] != s[24][0]);
            assert(s[14] != s[24]);
        } else if i == 14 && j == 25 {
            assert(s[14][0] != s[25][0]);
            assert(s[14] != s[25]);
        } else if i == 15 && j == 16 {
            assert(s[15][0] != s[16][0]);
            assert(s[15] != s[16]);
        } else if i == 15 && j == 17 {
            assert(s[15][0] != s[17][0]);
            assert(s[15] != s[17]);
        } else if i == 15 && j == 18 {
            assert(s[15][0] != s[18][0]);
            assert(s[15] != s[18]);
        } else if i == 15 && j == 19 {
            assert(s[15][0] != s[19][0]);
            assert(s[15] != s[19]);
        } else if i == 15 && j == 20 {
            assert(s[15][0] != s[20][0]);
            assert(s[15] != s[20]);
        } else if i == 15 && j == 21 {
            assert(s[15][0] != s[21][0]);
            assert(s[15] != s[21]);
        } else if i == 15 && j == 22 {
            assert(s[15][0] != s[22][0]);
            assert(s[15] != s[22]);
        } else if i == 15 && j == 23 {
            assert(s[15][0] != s[23][0]);
            assert(s[15] != s[23]);
        } else if i == 15 && j == 24 {
            assert(s[15][0] != s[24][0]);
            assert(s[15] != s[24]);
        } else if i == 15 && j == 25 {
            assert(s[15][0] != s[25][0]);
            assert(s[15] != s[25]);
        } else if i == 16 && j == 17 {
            assert(s[16][1] != s[17][1]);
            assert(s[16] != s[17]);
        } else if i == 16 && j == 18 {
            assert(s[16][0] != s[18][0]);
            assert(s[16] != s[18]);
        } else if i == 16 && j == 19 {
            assert(s[16][0] != s[19][0]);
            assert(s[16] != s[19]);
        } else if i == 16 && j == 20 {
            assert(s[16][2] != s[20][2]);
            assert(s[16] != s[20]);
        } else if i == 16 && j == 21 {
            assert(s[16][0] != s[21][0]);
            assert(s[16] != s[21]);
        } else if i == 16 && j == 22 {
            assert(s[16][0] != s[22][0]);
            assert(s[16] != s[22]);
        } else if i == 16 && j == 23 {
            assert(s[16][0] != s[23][0]);
            assert(s[16] != s[23]);
        } else if i == 16 && j == 24 {
            assert(s[16][0] != s[24][0]);
            assert(s[16] != s[24]);
        } else if i == 16 && j == 25 {
            assert(s[16][0] != s[25][0]);
            assert(s[16] != s[25]);
        } else if i == 17 && j == 18 {
            assert(s[17][0] != s[18][0]);
            assert(s[17] != s[18]);
        } else if i == 17 && j == 19 {
            assert(s[17][0] != s[19][0]);
            assert(s[17] != s[19]);
        } else if i == 17 && j == 20 {
            assert(s[17][1] != s[20][1]);
            assert(s[17] != s[20]);
        } else if i == 17 && j == 21 {
            assert(s[17][0] != s[21][0]);
            assert(s[17] != s[21]);
        } else if i == 17 && j == 22 {
            assert(s[17][0] != s[22][0]);
            assert(s[17] != s[22]);
        } else if i == 17 && j == 23 {
            assert(s[17][0] != s[23][0]);
            assert(s[17] != s[23]);
        } else if i == 17 && j == 24 {
            assert(s[17][0] != s[24][0]);
            assert(s[17] != s[24]);
        } else if i == 17 && j == 25 {
            assert(s[17][0] != s[25][0]);
            assert(s[17] != s[25]);
        } else if i == 18 && j == 19 {
            assert(s[18][0] != s[19][0]);
            assert(s[18] != s[19]);
        } else if i == 18 && j == 20 {
            assert(s[18][0] != s[20][0]);
            assert(s[18] != s[20]);
        } else if i == 18 && j == 21 {
            assert(s[18][0] != s[21][0]);
            assert(s[18] != s[21]);
        } else if i == 18 && j == 22 {
            assert(s[18][0] != s[22][0]);
            assert(s[18] != s[22]);
        } else if i == 18 && j == 23 {
            assert(s[18][0] != s[23][0]);
            assert(s[18] != s[23]);
        } else if i == 18 && j == 24 {
            assert(s[18][0] != s[24][0]);
            assert(s[18] != s[24]);
        } else if i == 18 && j == 25 {
            assert(s[18][0] != s[25][0]);
            assert(s[18] != s[25]);
        } else if i == 19 && j == 20 {
            assert(s[19][0] != s[20][0]);
            assert(s[19] != s[20]);
        } else if i == 19 && j == 21 {
            assert(s[19][0] != s[21][0]);
            assert(s[19] != s[21]);
        } else if i == 19 && j == 22 {
            assert(s[19][0] != s[22][0]);
            assert(s[19] != s[22]);
        } else if i == 19 && j == 23 {
            assert(s[19][0] != s[23][0]);
            assert(s[19] != s[23]);
        } else if i == 19 && j == 24 {
            assert(s[19][0] != s[24][0]);
            assert(s[19] != s[24]);
        } else if i == 19 && j == 25 {
            assert(s[19][0] != s[25][0]);
            assert(s[19] != s[25]);
        } else if i == 20 && j == 21 {
            assert(s[20][0] != s[21][0]);
            assert(s[20] != s[21]);
        } else if i == 20 && j == 22 {
            assert(s[20][0] != s[22][0]);
            assert(s[20] != s[22]);
        } else if i == 20 && j == 23 {
            assert(s[20][0] != s[23][0]);
            assert(s[20] != s[23]);
        } else if i == 20 && j == 24 {
            assert(s[20][0] != s[24][0]);
            assert(s[20] != s[24]);
        } else if i == 20 && j == 25 {
            assert(s[20][0] != s[25][0]);
            assert(s[20] != s[25]);
        } else if i == 21 && j == 22 {
            assert(s[21][0] != s[22][0]);
            assert(s[21] != s[22]);
        } else if i == 21 && j == 23 {
            assert(s[21][0] != s[23][0]);
            assert(s[21] != s[23]);
        } else if i == 21 && j == 24 {
            assert(s[21][0] != s[24][0]);
            assert(s[21] != s[24]);
        } else if i == 21 && j == 25 {
            assert(s[21][0] != s[25][0]);
            assert(s[21] != s[25]);
        } else if i == 22 && j == 23 {
            assert(s[22][0] != s[23][0]);
            assert(s[22] != s[23]);
        } else if i == 22 && j == 24 {
            assert(s[22][0] != s[24][0]);
            assert(s[22] != s[24]);
        } else if i == 22 && j == 25 {
            assert(s[22][0] != s[25][0]);
            assert(s[22] != s[25]);
        } else if i == 23 && j == 24 {
            assert(s[23][0] != s[24][0]);
            assert(s[23] != s[24]);
        } else if i == 23 && j == 25 {
            assert(s[23][0] != s[25][0]);
            assert(s[23] != s[25]);
        } else if i == 24 && j == 25 {
            assert(s[24][0] != s[25][0]);
            assert(s[24] != s[25]);
        }
    }
}

/// The spelling table opens with the roster's names, each standing for its own position.
proof fn lemma_format_spellings_open_with_names()
    ensures
        FORMAT_SPELLINGS@.len() >= format_slugs().len(),
        forall|k: int| 0 <= k < format_slugs().len() ==> (#[trigger] FORMAT_SPELLINGS@[k]).0@ == format_slugs()[k]
            && FORMAT_SPELLINGS@[k].1 == k,
{
    assert forall|k: int| 0 <= k < format_slugs().len() implies (#[trigger] FORMAT_SPELLINGS@[k]).0@ == format_slugs()[k]
        && FORMAT_SPELLINGS@[k].1 == k by {
        if k == 0 {
            assert(FORMAT_SPELLINGS@[0].0@ == format_slugs()[0]);
        } else if k == 1 {
            assert(FORMAT_SPELLINGS@[1].0@ == format_slugs()[1]);
        } else if k == 2 {
            assert(FORMAT_SPELLINGS@[2].0@ == format_slugs()[2]);
        } else if k == 3 {
            assert(FORMAT_SPELLINGS@[3].0@ == format_slugs()[3]);
        } else if k == 4 {
            assert(FORMAT_SPELLINGS@[4].0@ == format_slugs()[4]);
        } else if k == 5 {
            assert(FORMAT_SPELLINGS@[5].0@ == format_slugs()[5]);
        } else if k == 6 {
            assert(FORMAT_SPELLINGS@[6].0@ == format_slugs()[6]);
        } else if k == 7 {
            assert(FORMAT_SPELLINGS@[7].0@ == format_slugs()[7]);
        } else if k == 8 {
            assert(FORMAT_SPELLINGS@[8].0@ == format_slugs()[8]);
        } else if k == 9 {
            assert(FORMAT_SPELLINGS@[9].0@ == format_slugs()[9]);
        } else if k == 10 {
            assert(FORMAT_SPELLINGS@[10].0@ == format_slugs()[10]);
        } else if k == 11 {
            assert(FORMAT_SPELLINGS@[11].0@ == format_slugs()[11]);
        } else if k == 12 {
            assert(FORMAT_SPELLINGS@[12].0@ == format_slugs()[12]);
        } else if k == 13 {
            assert(FORMAT_SPELLINGS@[13].0@ == format_slugs()[13]);
        } else if k == 14 {
            assert(FORMAT_SPELLINGS@[14].0@ == format_slugs()[14]);
        } else if k == 15 {
            assert(FORMAT_SPELLINGS@[15].0@ == format_slugs()[15]);
        } else if k == 16 {
            assert(FORMAT_SPELLINGS@[16].0@ == format_slugs()[16]);
        } else if k == 17 {
            assert(FORMAT_SPELLINGS@[17].0@ == format_slugs()[17]);
        } else if k == 18 {
            assert(FORMAT_SPELLINGS@[18].0@ == format_slugs()[18]);
        } else if k == 19 {
            assert(FORMAT_SPELLINGS@[19].0@ == format_slugs()[19]);
        } else if k == 20 {
            assert(FORMAT_SPELLINGS@[20].0@ == format_slugs()[20]);
        } else if k == 21 {
            assert(FORMAT_SPELLINGS@[21].0@ == format_slugs()[21]);
        } else if k == 22 {
            assert(FORMAT_SPELLINGS@[22].0@ == format_slugs()[22]);
        } else if k == 23 {
            assert(FORMAT_SPELLINGS@[23].0@ == format_slugs()[23]);
        } else if k == 24 {
            assert(FORMAT_SPELLINGS@[24].0@ == format_slugs()[24]);
        } else if k == 25 {
            assert(FORMAT_SPELLINGS@[25].0@ == format_slugs()[25]);
        }
    }
}

/// **Every named format survives its name**, in its own spelling and in ASCII upper case.
pub proof fn law_format_named_round_trip(i: nat)
    requires
        i < 26,
    ensures
        parse_spelled(FORMAT_SPELLINGS@, term_text(format_slugs(), Term::Named(i))) == Term::Named(i),
        parse_spelled(FORMAT_SPELLINGS@, upper(term_text(format_slugs(), Term::Named(i)))) == Term::Named(i),
        lower(term_text(format_slugs(), Term::Named(i))) == term_text(format_slugs(), Term::Named(i)),
{
    lemma_format_slugs_well_formed();
    lemma_format_spellings_open_with_names();
    lemma_spelled_named(FORMAT_SPELLINGS@, format_slugs(), i as int);
}

/// **The format parse is idempotent through the text form**, for every input.
pub proof fn law_format_parse_is_idempotent(text: Seq<char>)
    ensures
        parse_spelled(FORMAT_SPELLINGS@, term_text(format_slugs(), parse_spelled(FORMAT_SPELLINGS@, text)))
            == parse_spelled(FORMAT_SPELLINGS@, text),
{
    lemma_format_slugs_well_formed();
    lemma_format_spellings_open_with_names();
    lemma_format_spellings_in_range();
    lemma_spelled_idempotent(FORMAT_SPELLINGS@, format_slugs(), text);
}

/// The spelling row whose text has the key `k`, or `-1` where no spelling has it.
spec fn spelling_row(k: int) -> int {
    if k == 1751544171 {
        0
    } else if k == 6844273 {
        1
    } else if k == 1735026281 {
        2
    } else if k == 1684694633 {
        3
    } else if k == 1735030626 {
        4
    } else if k == 1734830709 {
        5
    } else if k == 1902339704 {
        6
    } else if k == 6777448 {
        7
    } else if k == 7433827 {
        8
    } else if k == 6844261 {
        9
    } else if k == 3371876 {
        10
    } else if k == 3437412 {
        11
    } else if k == 6776431 {
        12
    } else if k == 7893871 {
        13
    } else if k == 7893858 {
        14
    } else if k == 6779760 {
        15
    } else if k == 3373171 {
        16
    } else if k == 6775411 {
        17
    } else if k == 6776433 {
        18
    } else if k == 7893876 {
        19
    } else if k == 7174259 {
        20
    } else if k == 7498346 {
        21
    } else if k == 7563060 {
        22
    } else if k == 6763641 {
        23
    } else if k == 7893870 {
        24
    } else if k == 7565672 {
        25
    } else if k == 6844779 {
        26
    } else if k == 6713707 {
        27
    } else if k == 6777461 {
        28
    } else if k == 6515301 {
        29
    } else if k == 6976368 {
        30
    } else {
        -1
    }
}

/// The spelling row that holds the `k`th on-disk spelling of the format at `i`.
spec fn extension_row(i: nat, k: int) -> int {
    if i == 0 && k == 0 {
        26
    } else if i == 0 && k == 1 {
        0
    } else if i == 0 && k == 2 {
        27
    } else if i == 1 && k == 0 {
        1
    } else if i == 2 && k == 0 {
        2
    } else if i == 3 && k == 0 {
        3
    } else if i == 4 && k == 0 {
        4
    } else if i == 5 && k == 0 {
        28
    } else if i == 5 && k == 1 {
        5
    } else if i == 6 && k == 0 {
        6
    } else if i == 7 && k == 0 {
        7
    } else if i == 8 && k == 0 {
        8
    } else if i == 8 && k == 1 {
        29
    } else if i == 9 && k == 0 {
        9
    } else if i == 10 && k == 0 {
        10
    } else if i == 11 && k == 0 {
        11
    } else if i == 12 && k == 0 {
        12
    } else if i == 13 && k == 0 {
        13
    } else if i == 14 && k == 0 {
        14
    } else if i == 15 && k == 0 {
        15
    } else if i == 15 && k == 1 {
        30
    } else if i == 16 && k == 0 {
        16
    } else if i == 17 && k == 0 {
        17
    } else if i == 18 && k == 0 {
        18
    } else if i == 19 && k == 0 {
        19
    } else if i == 20 && k == 0 {
        20
    } else if i == 21 && k == 0 {
        21
    } else if i == 22 && k == 0 {
        22
    } else if i == 23 && k == 0 {
        23
    } else if i == 24 && k == 0 {
        24
    } else if i == 25 && k == 0 {
        25
    } else {
        -1
    }
}

/// Every spelling is its own lower case, and stands for its row through its key.
proof fn lemma_format_spelling_keys()
    ensures
        forall|k: int| 0 <= k < FORMAT_SPELLINGS@.len() ==> spelling_row(text_key((#[trigger] FORMAT_SPELLINGS@[k]).0@)) == k
            && lower(FORMAT_SPELLINGS@[k].0@) == FORMAT_SPELLINGS@[k].0@,
{
    reveal_strlit("jpeg");
    reveal_strlit("png");
    reveal_strlit("heif");
    reveal_strlit("heic");
    reveal_strlit("avif");
    reveal_strlit("tiff");
    reveal_strlit("webp");
    reveal_strlit("gif");
    reveal_strlit("bmp");
    reveal_strlit("dng");
    reveal_strlit("cr2");
    reveal_strlit("cr3");
    reveal_strlit("nef");
    reveal_strlit("nrw");
    reveal_strlit("arw");
    reveal_strlit("orf");
    reveal_strlit("rw2");
    reveal_strlit("raf");
    reveal_strlit("pef");
    reveal_strlit("srw");
    reveal_strlit("rwl");
    reveal_strlit("iiq");
    reveal_strlit("3fr");
    reveal_strlit("x3f");
    reveal_strlit("mrw");
    reveal_strlit("gpr");
    reveal_strlit("jpg");
    reveal_strlit("jpe");
    reveal_strlit("tif");
    reveal_strlit("dib");
    reveal_strlit("ori");
    let sp = FORMAT_SPELLINGS@;
    assert(sp.len() == 31);
    assert forall|k: int| 0 <= k < sp.len() implies spelling_row(text_key((#[trigger] sp[k]).0@)) == k
        && lower(sp[k].0@) == sp[k].0@ by {
        if k == 0 {
            assert(text_key(sp[0].0@) == 1751544171);
            assert(lower(sp[0].0@) =~= sp[0].0@);
        } else if k == 1 {
            assert(text_key(sp[1].0@) == 6844273);
            assert(lower(sp[1].0@) =~= sp[1].0@);
        } else if k == 2 {
            assert(text_key(sp[2].0@) == 1735026281);
            assert(lower(sp[2].0@) =~= sp[2].0@);
        } else if k == 3 {
            assert(text_key(sp[3].0@) == 1684694633);
            assert(lower(sp[3].0@) =~= sp[3].0@);
        } else if k == 4 {
            assert(text_key(sp[4].0@) == 1735030626);
            assert(lower(sp[4].0@) =~= sp[4].0@);
        } else if k == 5 {
            assert(text_key(sp[5].0@) == 1734830709);
            assert(lower(sp[5].0@) =~= sp[5].0@);
        } else if k == 6 {
            assert(text_key(sp[6].0@) == 1902339704);
            assert(lower(sp[6].0@) =~= sp[6].0@);
        } else if k == 7 {
            assert(text_key(sp[7].0@) == 6777448);
            assert(lower(sp[7].0@) =~= sp[7].0@);
        } else if k == 8 {
            assert(text_key(sp[8].0@) == 7433827);
            assert(lower(sp[8].0@) =~= sp[8].0@);
        } else if k == 9 {
            assert(text_key(sp[9].0@) == 6844261);
            assert(lower(sp[9].0@) =~= sp[9].0@);
        } else if k == 10 {
            assert(text_key(sp[10].0@) == 3371876);
            assert(lower(sp[10].0@) =~= sp[10].0@);
        } else if k == 11 {
            assert(text_key(sp[11].0@) == 3437412);
            assert(lower(sp[11].0@) =~= sp[11].0@);
        } else if k == 12 {
            assert(text_key(sp[12].0@) == 6776431);
            assert(lower(sp[12].0@) =~= sp[12].0@);
        } else if k == 13 {
            assert(text_key(sp[13].0@) == 7893871);
            assert(lower(sp[13].0@) =~= sp[13].0@);
        } else if k == 14 {
            assert(text_key(sp[14].0@) == 7893858);
            assert(lower(sp[14].0@) =~= sp[14].0@);
        } else if k == 15 {
            assert(text_key(sp[15].0@) == 6779760);
            assert(lower(sp[15].0@) =~= sp[15].0@);
        } else if k == 16 {
            assert(text_key(sp[16].0@) == 3373171);
            assert(lower(sp[16].0@) =~= sp[16].0@);
        } else if k == 17 {
            assert(text_key(sp[17].0@) == 6775411);
            assert(lower(sp[17].0@) =~= sp[17].0@);
        } else if k == 18 {
            assert(text_key(sp[18].0@) == 6776433);
            assert(lower(sp[18].0@) =~= sp[18].0@);
        } else if k == 19 {
            assert(text_key(sp[19].0@) == 7893876);
            assert(lower(sp[19].0@) =~= sp[19].0@);
        } else if k == 20 {
            assert(text_key(sp[20].0@) == 7174259);
            assert(lower(sp[20].0@) =~= sp[20].0@);
        } else if k == 21 {
            assert(text_key(sp[21].0@) == 7498346);
            assert(lower(sp[21].0@) =~= sp[21].0@);
        } else if k == 22 {
            assert(text_key(sp[22].0@) == 7563060);
            assert(lower(sp[22].0@) =~= sp[22].0@);
        } else if k == 23 {
            assert(text_key(sp[23].0@) == 6763641);
            assert(lower(sp[23].0@) =~= sp[23].0@);
        } else if k == 24 {
            assert(text_key(sp[24].0@) == 7893870);
            assert(lower(sp[24].0@) =~= sp[24].0@);
        } else if k == 25 {
            assert(text_key(sp[25].0@) == 7565672);
            assert(lower(sp[25].0@) =~= sp[25].0@);
        } else if k == 26 {
            assert(text_key(sp[26].0@) == 6844779);
            assert(lower(sp[26].0@) =~= sp[26].0@);
        } else if k == 27 {
            assert(text_key(sp[27].0@) == 6713707);
            assert(lower(sp[27].0@) =~= sp[27].0@);
        } else if k == 28 {
            assert(text_key(sp[28].0@) == 6777461);
            assert(lower(sp[28].0@) =~= sp[28].0@);
        } else if k == 29 {
            assert(text_key(sp[29].0@) == 6515301);
            assert(lower(sp[29].0@) =~= sp[29].0@);
        } else if k == 30 {
            assert(text_key(sp[30].0@) == 6976368);
            assert(lower(sp[30].0@) =~= sp[30].0@);
        }
    }
}

/// The `k`th on-disk spelling of the format at `i` is the spelling row [`extension_row`] names,
/// and that row stands for the format at `i`.
proof fn lemma_extension_rows(i: nat, k: int)
    requires
        i < 26,
        0 <= k < format_extensions(Term::Named(i)).len(),
    ensures
        0 <= extension_row(i, k) < FORMAT_SPELLINGS@.len(),
        FORMAT_SPELLINGS@[extension_row(i, k)].0 == format_extensions(Term::Named(i))[k],
        FORMAT_SPELLINGS@[extension_row(i, k)].1 == i,
{
}

/// A spelling row reads back, in its own spelling and in ASCII upper case, as the member it
/// stands for.
proof fn lemma_spelling_row_parses(r: int)
    requires
        0 <= r < FORMAT_SPELLINGS@.len(),
    ensures
        parse_spelled(FORMAT_SPELLINGS@, FORMAT_SPELLINGS@[r].0@) == Term::Named(FORMAT_SPELLINGS@[r].1 as nat),
        parse_spelled(FORMAT_SPELLINGS@, upper(FORMAT_SPELLINGS@[r].0@)) == Term::Named(
            FORMAT_SPELLINGS@[r].1 as nat,
        ),
{
    let sp = FORMAT_SPELLINGS@;
    let e = sp[r].0@;
    lemma_spelling_row(r);
    crate::parse::lemma_lower_upper(e);
    crate::parse::lemma_spelling_index(sp, e);
    match crate::parse::spelling_index(sp, e) {
        Some(v) => {
            let j = choose|j: int|
                0 <= j < sp.len() && #[trigger] sp[j].0@ == e && sp[j].1 == v && forall|m: int|
                    0 <= m < j ==> (#[trigger] sp[m]).0@ != e;
            lemma_spelling_row(j);
        },
        None => {
            assert(sp[r].0@ != e);
        },
    }
}

/// One spelling row's key and case.
proof fn lemma_spelling_row(r: int)
    requires
        0 <= r < FORMAT_SPELLINGS@.len(),
    ensures
        spelling_row(text_key(FORMAT_SPELLINGS@[r].0@)) == r,
        lower(FORMAT_SPELLINGS@[r].0@) == FORMAT_SPELLINGS@[r].0@,
{
    lemma_format_spelling_keys();
}

/// **Every on-disk spelling of a named format reads back as that format**, in its own spelling
/// and in ASCII upper case — the first of them being the one [`Format::as_extension`] writes.
pub proof fn law_format_extensions_parse_back(i: nat, k: int)
    requires
        i < 26,
        0 <= k < format_extensions(Term::Named(i)).len(),
    ensures
        parse_spelled(FORMAT_SPELLINGS@, format_extensions(Term::Named(i))[k]@) == Term::Named(i),
        parse_spelled(FORMAT_SPELLINGS@, upper(format_extensions(Term::Named(i))[k]@)) == Term::Named(i),
{
    lemma_extension_rows(i, k);
    lemma_spelling_row_parses(extension_row(i, k));
}

} // verus!
