//! The coded orientation vocabularies of a video stream — display [`Rotation`], interlacing
//! [`FieldOrder`] and stereoscopic [`StereoMode`].
//!
//! Each is open: a name this build does not enumerate is carried by the `Other` arm in its ASCII
//! lower case, so the value space stays lowercase-canonical and equality compares names rather than
//! spellings. Each named member has a stable `u32` wire id, its roster position.
use vstd::prelude::*;
use vstd::std_specs::cmp::PartialEqSpecImpl;
use crate::parse::{
    Term, parse_term, term_text, term_code, code_term, parse_slug, well_formed_roster,
    lemma_named_round_trip, lemma_parse_render_parse,
};
use crate::text::{str_equal, upper, lower};

verus! {

/// Display rotation applied to the decoded picture before presentation: the clockwise angle, in
/// degrees, of one of the four axis-aligned multiples of 90°. The default is no rotation.
#[derive(Debug, Clone, Eq, Hash)]
pub enum Rotation {
    /// No rotation.
    D0,
    /// 90° clockwise.
    D90,
    /// 180°.
    D180,
    /// 270° clockwise (90° counter-clockwise).
    D270,
    /// A rotation this vocabulary does not enumerate, carried by its folded name.
    Other(String),
}

/// The slug of every rotation this vocabulary names, in roster order.
pub const ROTATION_SLUGS: [&'static str; 4] = [
    "0",
    "90",
    "180",
    "270",
];

/// The roster's slugs, as text.
pub open spec fn rotation_slugs() -> Seq<Seq<char>> {
    ROTATION_SLUGS@.map_values(|s: &'static str| s@)
}

impl View for Rotation {
    type V = Term;

    open spec fn view(&self) -> Term {
        match self {
            Rotation::D0 => Term::Named(0),
            Rotation::D90 => Term::Named(1),
            Rotation::D180 => Term::Named(2),
            Rotation::D270 => Term::Named(3),
            Rotation::Other(s) => Term::Other(s@),
        }
    }
}

impl Rotation {
    /// The roster member at `i`.
    fn from_index(i: usize) -> (r: Self)
        requires
            i < 4,
        ensures
            r@ == Term::Named(i as nat),
    {
        match i {
            0 => Rotation::D0,
            1 => Rotation::D90,
            2 => Rotation::D180,
            _ => Rotation::D270,
        }
    }

    /// The canonical slug of this rotation; [`Self::Other`] renders the name it carries.
    pub fn as_str(&self) -> (r: &str)
        ensures
            r@ == term_text(rotation_slugs(), self@),
    {
        match self {
            Rotation::D0 => ROTATION_SLUGS[0],
            Rotation::D90 => ROTATION_SLUGS[1],
            Rotation::D180 => ROTATION_SLUGS[2],
            Rotation::D270 => ROTATION_SLUGS[3],
            Rotation::Other(s) => s.as_str(),
        }
    }

    /// The stable `u32` wire id, which is the roster position; [`None`] for [`Self::Other`],
    /// which names a rotation this build has no id for.
    pub fn to_u32(&self) -> (r: Option<u32>)
        ensures
            r == term_code(self@),
    {
        match self {
            Rotation::D0 => Some(0),
            Rotation::D90 => Some(1),
            Rotation::D180 => Some(2),
            Rotation::D270 => Some(3),
            Rotation::Other(_) => None,
        }
    }

    /// Decodes the stable `u32` wire id [`Self::to_u32`] produces; [`None`] for an
    /// unrecognised id — never a silent collapse onto a named rotation.
    pub fn from_u32(v: u32) -> (r: Option<Self>)
        ensures
            match r {
                Some(x) => code_term(v as nat, 4) == Some(x@),
                None => code_term(v as nat, 4) is None,
            },
    {
        if v < 4 {
            Some(Rotation::from_index(v as usize))
        } else {
            None
        }
    }

    /// The ignore-case parse: the named rotation whose slug this is in any ASCII case, or else
    /// the spelling folded to lower case and carried by [`Self::Other`]. Total.
    pub fn parse(s: &str) -> (r: Self)
        ensures
            r@ == parse_term(rotation_slugs(), s@),
    {
        match parse_slug(&ROTATION_SLUGS, s) {
            Ok(i) => Rotation::from_index(i),
            Err(name) => Rotation::Other(name),
        }
    }

    /// The open escape for a slug this vocabulary does not name. Runs the ignore-case parse
    /// first, so a canonical spelling in any case returns that named rotation; only a genuine
    /// stranger reaches [`Self::Other`].
    pub fn other(slug: &str) -> (r: Self)
        ensures
            r@ == parse_term(rotation_slugs(), slug@),
    {
        Rotation::parse(slug)
    }

    /// Is this [`Self::D0`]?
    pub fn is_d_0(&self) -> (r: bool)
        ensures
            r == (self@ == Term::Named(0)),
    {
        matches!(self, Rotation::D0)
    }

    /// Is this [`Self::D90`]?
    pub fn is_d_90(&self) -> (r: bool)
        ensures
            r == (self@ == Term::Named(1)),
    {
        matches!(self, Rotation::D90)
    }

    /// Is this [`Self::D180`]?
    pub fn is_d_180(&self) -> (r: bool)
        ensures
            r == (self@ == Term::Named(2)),
    {
        matches!(self, Rotation::D180)
    }

    /// Is this [`Self::D270`]?
    pub fn is_d_270(&self) -> (r: bool)
        ensures
            r == (self@ == Term::Named(3)),
    {
        matches!(self, Rotation::D270)
    }

    /// Is this a name the roster does not carry?
    pub fn is_other(&self) -> (r: bool)
        ensures
            r == (self@ is Other),
    {
        matches!(self, Rotation::Other(_))
    }
}

impl Default for Rotation {
    /// [`Self::D0`].
    fn default() -> (r: Self)
        ensures
            r@ == Term::Named(0),
    {
        Rotation::D0
    }
}

impl PartialEq for Rotation {
    fn eq(&self, other: &Self) -> (r: bool) {
        match (self, other) {
            (Rotation::Other(a), Rotation::Other(b)) => str_equal(a.as_str(), b.as_str()),
            (Rotation::Other(_), _) => false,
            (_, Rotation::Other(_)) => false,
            _ => self.to_u32_index() == other.to_u32_index(),
        }
    }
}

impl PartialEqSpecImpl for Rotation {
    open spec fn obeys_eq_spec() -> bool {
        true
    }

    open spec fn eq_spec(&self, other: &Self) -> bool {
        self@ == other@
    }
}

impl Rotation {
    /// The roster position of a named rotation; the roster's length for [`Self::Other`].
    fn to_u32_index(&self) -> (r: usize)
        ensures
            self@ matches Term::Named(i) ==> r == i,
            self@ is Other ==> r == 4,
    {
        match self {
            Rotation::D0 => 0,
            Rotation::D90 => 1,
            Rotation::D180 => 2,
            Rotation::D270 => 3,
            Rotation::Other(_) => 4,
        }
    }
}

impl core::str::FromStr for Rotation {
    type Err = core::convert::Infallible;

    fn from_str(s: &str) -> Result<Self, Self::Err> {
        Ok(Rotation::parse(s))
    }
}

/// The rotation roster is lowercase-canonical and spells no two members alike.
pub proof fn lemma_rotation_slugs_well_formed()
    ensures
        well_formed_roster(rotation_slugs()),
{
    reveal_strlit("0");
    reveal_strlit("90");
    reveal_strlit("180");
    reveal_strlit("270");
    let s = rotation_slugs();
    assert(s.len() == 4);
    assert forall|i: int| 0 <= i < s.len() implies lower(#[trigger] s[i]) == s[i] by {
        if i == 0 {
            assert(lower(s[0]) =~= s[0]);
        } else if i == 1 {
            assert(lower(s[1]) =~= s[1]);
        } else if i == 2 {
            assert(lower(s[2]) =~= s[2]);
        } else if i == 3 {
            assert(lower(s[3]) =~= s[3]);
        }
    }
    assert forall|i: int, j: int| 0 <= i < j < s.len() implies #[trigger] s[i] != #[trigger] s[j] by {
        if i == 0 && j == 1 {
            assert(s[0] != s[1]);
        } else if i == 0 && j == 2 {
            assert(s[0] != s[2]);
        } else if i == 0 && j == 3 {
            assert(s[0] != s[3]);
        } else if i == 1 && j == 2 {
            assert(s[1] != s[2]);
        } else if i == 1 && j == 3 {
            assert(s[1] != s[3]);
        } else if i == 2 && j == 3 {
            assert(s[2][0] != s[3][0]);
            assert(s[2] != s[3]);
        }
    }
}

/// **Every named rotation survives its slug**, in its own spelling and in ASCII upper case, and its
/// wire id decodes back to it.
pub proof fn law_rotation_slugs_named_round_trip(i: nat)
    requires
        i < 4,
    ensures
        parse_term(rotation_slugs(), term_text(rotation_slugs(), Term::Named(i))) == Term::Named(i),
        parse_term(rotation_slugs(), upper(term_text(rotation_slugs(), Term::Named(i)))) == Term::Named(i),
        lower(term_text(rotation_slugs(), Term::Named(i))) == term_text(rotation_slugs(), Term::Named(i)),
        code_term(term_code(Term::Named(i))->0 as nat, 4) == Some(Term::Named(i)),
{
    lemma_rotation_slugs_well_formed();
    lemma_named_round_trip(rotation_slugs(), i as int);
}

/// **The rotation parse is idempotent through the text form**: what a parsed value renders parses
/// back as that value, for every input — a stranger included.
pub proof fn law_rotation_slugs_parse_is_idempotent(text: Seq<char>)
    ensures
        parse_term(rotation_slugs(), term_text(rotation_slugs(), parse_term(rotation_slugs(), text))) == parse_term(
            rotation_slugs(),
            text,
        ),
{
    lemma_rotation_slugs_well_formed();
    lemma_parse_render_parse(rotation_slugs(), text);
}

/// Interlacing / field order of a video stream, with FFmpeg `AVFieldOrder`'s code points:
/// unknown 0, progressive 1, TT 2, BB 3, TB 4, BT 5. The default is the named `Unknown`, FFmpeg's
/// own `AV_FIELD_UNKNOWN`.
#[derive(Debug, Clone, Eq, Hash)]
pub enum FieldOrder {
    /// Field order not known — FFmpeg's `AV_FIELD_UNKNOWN`, a named member.
    Unknown,
    /// Progressive (not interlaced).
    Progressive,
    /// Top coded first, top displayed first.
    Tt,
    /// Bottom coded first, bottom displayed first.
    Bb,
    /// Top coded first, bottom displayed first.
    Tb,
    /// Bottom coded first, top displayed first.
    Bt,
    /// A field order this vocabulary does not enumerate, carried by its folded name.
    Other(String),
}

/// The slug of every field order this vocabulary names, in roster order.
pub const FIELD_ORDER_SLUGS: [&'static str; 6] = [
    "unknown",
    "progressive",
    "tt",
    "bb",
    "tb",
    "bt",
];

/// The roster's slugs, as text.
pub open spec fn field_order_slugs() -> Seq<Seq<char>> {
    FIELD_ORDER_SLUGS@.map_values(|s: &'static str| s@)
}

impl View for FieldOrder {
    type V = Term;

    open spec fn view(&self) -> Term {
        match self {
            FieldOrder::Unknown => Term::Named(0),
            FieldOrder::Progressive => Term::Named(1),
            FieldOrder::Tt => Term::Named(2),
            FieldOrder::Bb => Term::Named(3),
            FieldOrder::Tb => Term::Named(4),
            FieldOrder::Bt => Term::Named(5),
            FieldOrder::Other(s) => Term::Other(s@),
        }
    }
}

impl FieldOrder {
    /// The roster member at `i`.
    fn from_index(i: usize) -> (r: Self)
        requires
            i < 6,
        ensures
            r@ == Term::Named(i as nat),
    {
        match i {
            0 => FieldOrder::Unknown,
            1 => FieldOrder::Progressive,
            2 => FieldOrder::Tt,
            3 => FieldOrder::Bb,
            4 => FieldOrder::Tb,
            _ => FieldOrder::Bt,
        }
    }

    /// The canonical slug of this field order; [`Self::Other`] renders the name it carries.
    pub fn as_str(&self) -> (r: &str)
        ensures
            r@ == term_text(field_order_slugs(), self@),
    {
        match self {
            FieldOrder::Unknown => FIELD_ORDER_SLUGS[0],
            FieldOrder::Progressive => FIELD_ORDER_SLUGS[1],
            FieldOrder::Tt => FIELD_ORDER_SLUGS[2],
            FieldOrder::Bb => FIELD_ORDER_SLUGS[3],
            FieldOrder::Tb => FIELD_ORDER_SLUGS[4],
            FieldOrder::Bt => FIELD_ORDER_SLUGS[5],
            FieldOrder::Other(s) => s.as_str(),
        }
    }

    /// The stable `u32` wire id, which is the roster position; [`None`] for [`Self::Other`],
    /// which names a field order this build has no id for.
    pub fn to_u32(&self) -> (r: Option<u32>)
        ensures
            r == term_code(self@),
    {
        match self {
            FieldOrder::Unknown => Some(0),
            FieldOrder::Progressive => Some(1),
            FieldOrder::Tt => Some(2),
            FieldOrder::Bb => Some(3),
            FieldOrder::Tb => Some(4),
            FieldOrder::Bt => Some(5),
            FieldOrder::Other(_) => None,
        }
    }

    /// Decodes the stable `u32` wire id [`Self::to_u32`] produces; [`None`] for an
    /// unrecognised id — never a silent collapse onto a named field order.
    pub fn from_u32(v: u32) -> (r: Option<Self>)
        ensures
            match r {
                Some(x) => code_term(v as nat, 6) == Some(x@),
                None => code_term(v as nat, 6) is None,
            },
    {
        if v < 6 {
            Some(FieldOrder::from_index(v as usize))
        } else {
            None
        }
    }

    /// The ignore-case parse: the named field order whose slug this is in any ASCII case, or else
    /// the spelling folded to lower case and carried by [`Self::Other`]. Total.
    pub fn parse(s: &str) -> (r: Self)
        ensures
            r@ == parse_term(field_order_slugs(), s@),
    {
        match parse_slug(&FIELD_ORDER_SLUGS, s) {
            Ok(i) => FieldOrder::from_index(i),
            Err(name) => FieldOrder::Other(name),
        }
    }

    /// The open escape for a slug this vocabulary does not name. Runs the ignore-case parse
    /// first, so a canonical spelling in any case returns that named field order; only a genuine
    /// stranger reaches [`Self::Other`].
    pub fn other(slug: &str) -> (r: Self)
        ensures
            r@ == parse_term(field_order_slugs(), slug@),
    {
        FieldOrder::parse(slug)
    }

    /// Is this [`Self::Unknown`]?
    pub fn is_unknown(&self) -> (r: bool)
        ensures
            r == (self@ == Term::Named(0)),
    {
        matches!(self, FieldOrder::Unknown)
    }

    /// Is this [`Self::Progressive`]?
    pub fn is_progressive(&self) -> (r: bool)
        ensures
            r == (self@ == Term::Named(1)),
    {
        matches!(self, FieldOrder::Progressive)
    }

    /// Is this [`Self::Tt`]?
    pub fn is_tt(&self) -> (r: bool)
        ensures
            r == (self@ == Term::Named(2)),
    {
        matches!(self, FieldOrder::Tt)
    }

    /// Is this [`Self::Bb`]?
    pub fn is_bb(&self) -> (r: bool)
        ensures
            r == (self@ == Term::Named(3)),
    {
        matches!(self, FieldOrder::Bb)
    }

    /// Is this [`Self::Tb`]?
    pub fn is_tb(&self) -> (r: bool)
        ensures
            r == (self@ == Term::Named(4)),
    {
        matches!(self, FieldOrder::Tb)
    }

    /// Is this [`Self::Bt`]?
    pub fn is_bt(&self) -> (r: bool)
        ensures
            r == (self@ == Term::Named(5)),
    {
        matches!(self, FieldOrder::Bt)
    }

    /// Is this a name the roster does not carry?
    pub fn is_other(&self) -> (r: bool)
        ensures
            r == (self@ is Other),
    {
        matches!(self, FieldOrder::Other(_))
    }
}

impl Default for FieldOrder {
    /// [`Self::Unknown`].
    fn default() -> (r: Self)
        ensures
            r@ == Term::Named(0),
    {
        FieldOrder::Unknown
    }
}

impl PartialEq for FieldOrder {
    fn eq(&self, other: &Self) -> (r: bool) {
        match (self, other) {
            (FieldOrder::Other(a), FieldOrder::Other(b)) => str_equal(a.as_str(), b.as_str()),
            (FieldOrder::Other(_), _) => false,
            (_, FieldOrder::Other(_)) => false,
            _ => self.to_u32_index() == other.to_u32_index(),
        }
    }
}

impl PartialEqSpecImpl for FieldOrder {
    open spec fn obeys_eq_spec() -> bool {
        true
    }

    open spec fn eq_spec(&self, other: &Self) -> bool {
        self@ == other@
    }
}

impl FieldOrder {
    /// The roster position of a named field order; the roster's length for [`Self::Other`].
    fn to_u32_index(&self) -> (r: usize)
        ensures
            self@ matches Term::Named(i) ==> r == i,
            self@ is Other ==> r == 6,
    {
        match self {
            FieldOrder::Unknown => 0,
            FieldOrder::Progressive => 1,
            FieldOrder::Tt => 2,
            FieldOrder::Bb => 3,
            FieldOrder::Tb => 4,
            FieldOrder::Bt => 5,
            FieldOrder::Other(_) => 6,
        }
    }
}

impl core::str::FromStr for FieldOrder {
    type Err = core::convert::Infallible;

    fn from_str(s: &str) -> Result<Self, Self::Err> {
        Ok(FieldOrder::parse(s))
    }
}

/// The field order roster is lowercase-canonical and spells no two members alike.
pub proof fn lemma_field_order_slugs_well_formed()
    ensures
        well_formed_roster(field_order_slugs()),
{
    reveal_strlit("unknown");
    reveal_strlit("progressive");
    reveal_strlit("tt");
    reveal_strlit("bb");
    reveal_strlit("tb");
    reveal_strlit("bt");
    let s = field_order_slugs();
    assert(s.len() == 6);
    assert forall|i: int| 0 <= i < s.len() implies lower(#[trigger] s[i]) == s[i] by {
        if i == 0 {
            assert(lower(s[0]) =~= s[0]);
        } else if i == 1 {
            assert(lower(s[1]) =~= s[1]);
        } else if i == 2 {
            assert(lower(s[2]) =~= s[2]);
        } else if i == 3 {
            assert(lower(s[3]) =~= s[3]);
        } else if i == 4 {
            assert(lower(s[4]) =~= s[4]);
        } else if i == 5 {
            assert(lower(s[5]) =~= s[5]);
        }
    }
    assert forall|i: int, j: int| 0 <= i < j < s.len() implies #[trigger] s[i] != #[trigger] s[j] by {
        if i == 0 && j == 1 {
            assert(s[0] != s[1]);
        } else if i == 0 && j == 2 {
            assert(s[0] != s[2]);
        } else if i == 0 && j == 3 {
            assert(s[0] != s[3]);
        } else if i == 0 && j == 4 {
            assert(s[0] != s[4]);
        } else if i == 0 && j == 5 {
            assert(s[0] != s[5]);
        } else if i == 1 && j == 2 {
            assert(s[1] != s[2]);
        } else if i == 1 && j == 3 {
            assert(s[1] != s[3]);
        } else if i == 1 && j == 4 {
            assert(s[1] != s[4]);
        } else if i == 1 && j == 5 {
            assert(s[1] != s[5]);
        } else if i == 2 && j == 3 {
            assert(s[2][0] != s[3][0]);
            assert(s[2] != s[3]);
        } else if i == 2 && j == 4 {
            assert(s[2][1] != s[4][1]);
            assert(s[2] != s[4]);
        } else if i == 2 && j == 5 {
            assert(s[2][0] != s[5][0]);
            assert(s[2] != s[5]);
        } else if i == 3 && j == 4 {
            assert(s[3][0] != s[4][0]);
            assert(s[3] != s[4]);
        } else if i == 3 && j == 5 {
            assert(s[3][1] != s[5][1]);
            assert(s[3] != s[5]);
        } else if i == 4 && j == 5 {
            assert(s[4][0] != s[5][0]);
            assert(s[4] != s[5]);
        }
    }
}

/// **Every named field order survives its slug**, in its own spelling and in ASCII upper case, and its
/// wire id decodes back to it.
pub proof fn law_field_order_slugs_named_round_trip(i: nat)
    requires
        i < 6,
    ensures
        parse_term(field_order_slugs(), term_text(field_order_slugs(), Term::Named(i))) == Term::Named(i),
        parse_term(field_order_slugs(), upper(term_text(field_order_slugs(), Term::Named(i)))) == Term::Named(i),
        lower(term_text(field_order_slugs(), Term::Named(i))) == term_text(field_order_slugs(), Term::Named(i)),
        code_term(term_code(Term::Named(i))->0 as nat, 6) == Some(Term::Named(i)),
{
    lemma_field_order_slugs_well_formed();
    lemma_named_round_trip(field_order_slugs(), i as int);
}

/// **The field order parse is idempotent through the text form**: what a parsed value renders parses
/// back as that value, for every input — a stranger included.
pub proof fn law_field_order_slugs_parse_is_idempotent(text: Seq<char>)
    ensures
        parse_term(field_order_slugs(), term_text(field_order_slugs(), parse_term(field_order_slugs(), text))) == parse_term(
            field_order_slugs(),
            text,
        ),
{
    lemma_field_order_slugs_well_formed();
    lemma_parse_render_parse(field_order_slugs(), text);
}

/// Stereoscopic-3D packing of a video stream, with FFmpeg `AVStereo3DType`'s code points (`Mono`
/// is `AV_STEREO3D_2D`, 0, through `Columns`, 7). The default is `Mono`, plain monoscopic video.
#[derive(Debug, Clone, Eq, Hash)]
pub enum StereoMode {
    /// Plain monoscopic video — `AV_STEREO3D_2D`.
    Mono,
    /// Side-by-side.
    SideBySide,
    /// Top-bottom.
    TopBottom,
    /// Frame-sequential.
    FrameSequence,
    /// Checkerboard.
    Checkerboard,
    /// Side-by-side quincunx.
    SideBySideQuincunx,
    /// Interleaved by rows.
    Lines,
    /// Interleaved by columns.
    Columns,
    /// A stereo mode this vocabulary does not enumerate, carried by its folded name.
    Other(String),
}

/// The slug of every stereo mode this vocabulary names, in roster order.
pub const STEREO_MODE_SLUGS: [&'static str; 8] = [
    "mono",
    "side-by-side",
    "top-bottom",
    "frame-sequence",
    "checkerboard",
    "side-by-side-quincunx",
    "lines",
    "columns",
];

/// The roster's slugs, as text.
pub open spec fn stereo_mode_slugs() -> Seq<Seq<char>> {
    STEREO_MODE_SLUGS@.map_values(|s: &'static str| s@)
}

impl View for StereoMode {
    type V = Term;

    open spec fn view(&self) -> Term {
        match self {
            StereoMode::Mono => Term::Named(0),
            StereoMode::SideBySide => Term::Named(1),
            StereoMode::TopBottom => Term::Named(2),
            StereoMode::FrameSequence => Term::Named(3),
            StereoMode::Checkerboard => Term::Named(4),
            StereoMode::SideBySideQuincunx => Term::Named(5),
            StereoMode::Lines => Term::Named(6),
            StereoMode::Columns => Term::Named(7),
            StereoMode::Other(s) => Term::Other(s@),
        }
    }
}

impl StereoMode {
    /// The roster member at `i`.
    fn from_index(i: usize) -> (r: Self)
        requires
            i < 8,
        ensures
            r@ == Term::Named(i as nat),
    {
        match i {
            0 => StereoMode::Mono,
            1 => StereoMode::SideBySide,
            2 => StereoMode::TopBottom,
            3 => StereoMode::FrameSequence,
            4 => StereoMode::Checkerboard,
            5 => StereoMode::SideBySideQuincunx,
            6 => StereoMode::Lines,
            _ => StereoMode::Columns,
        }
    }

    /// The canonical slug of this stereo mode; [`Self::Other`] renders the name it carries.
    pub fn as_str(&self) -> (r: &str)
        ensures
            r@ == term_text(stereo_mode_slugs(), self@),
    {
        match self {
            StereoMode::Mono => STEREO_MODE_SLUGS[0],
            StereoMode::SideBySide => STEREO_MODE_SLUGS[1],
            StereoMode::TopBottom => STEREO_MODE_SLUGS[2],
            StereoMode::FrameSequence => STEREO_MODE_SLUGS[3],
            StereoMode::Checkerboard => STEREO_MODE_SLUGS[4],
            StereoMode::SideBySideQuincunx => STEREO_MODE_SLUGS[5],
            StereoMode::Lines => STEREO_MODE_SLUGS[6],
            StereoMode::Columns => STEREO_MODE_SLUGS[7],
            StereoMode::Other(s) => s.as_str(),
        }
    }

    /// The stable `u32` wire id, which is the roster position; [`None`] for [`Self::Other`],
    /// which names a stereo mode this build has no id for.
    pub fn to_u32(&self) -> (r: Option<u32>)
        ensures
            r == term_code(self@),
    {
        match self {
            StereoMode::Mono => Some(0),
            StereoMode::SideBySide => Some(1),
            StereoMode::TopBottom => Some(2),
            StereoMode::FrameSequence => Some(3),
            StereoMode::Checkerboard => Some(4),
            StereoMode::SideBySideQuincunx => Some(5),
            StereoMode::Lines => Some(6),
            StereoMode::Columns => Some(7),
            StereoMode::Other(_) => None,
        }
    }

    /// Decodes the stable `u32` wire id [`Self::to_u32`] produces; [`None`] for an
    /// unrecognised id — never a silent collapse onto a named stereo mode.
    pub fn from_u32(v: u32) -> (r: Option<Self>)
        ensures
            match r {
                Some(x) => code_term(v as nat, 8) == Some(x@),
                None => code_term(v as nat, 8) is None,
            },
    {
        if v < 8 {
            Some(StereoMode::from_index(v as usize))
        } else {
            None
        }
    }

    /// The ignore-case parse: the named stereo mode whose slug this is in any ASCII case, or else
    /// the spelling folded to lower case and carried by [`Self::Other`]. Total.
    pub fn parse(s: &str) -> (r: Self)
        ensures
            r@ == parse_term(stereo_mode_slugs(), s@),
    {
        match parse_slug(&STEREO_MODE_SLUGS, s) {
            Ok(i) => StereoMode::from_index(i),
            Err(name) => StereoMode::Other(name),
        }
    }

    /// The open escape for a slug this vocabulary does not name. Runs the ignore-case parse
    /// first, so a canonical spelling in any case returns that named stereo mode; only a genuine
    /// stranger reaches [`Self::Other`].
    pub fn other(slug: &str) -> (r: Self)
        ensures
            r@ == parse_term(stereo_mode_slugs(), slug@),
    {
        StereoMode::parse(slug)
    }

    /// Is this [`Self::Mono`]?
    pub fn is_mono(&self) -> (r: bool)
        ensures
            r == (self@ == Term::Named(0)),
    {
        matches!(self, StereoMode::Mono)
    }

    /// Is this [`Self::SideBySide`]?
    pub fn is_side_by_side(&self) -> (r: bool)
        ensures
            r == (self@ == Term::Named(1)),
    {
        matches!(self, StereoMode::SideBySide)
    }

    /// Is this [`Self::TopBottom`]?
    pub fn is_top_bottom(&self) -> (r: bool)
        ensures
            r == (self@ == Term::Named(2)),
    {
        matches!(self, StereoMode::TopBottom)
    }

    /// Is this [`Self::FrameSequence`]?
    pub fn is_frame_sequence(&self) -> (r: bool)
        ensures
            r == (self@ == Term::Named(3)),
    {
        matches!(self, StereoMode::FrameSequence)
    }

    /// Is this [`Self::Checkerboard`]?
    pub fn is_checkerboard(&self) -> (r: bool)
        ensures
            r == (self@ == Term::Named(4)),
    {
        matches!(self, StereoMode::Checkerboard)
    }

    /// Is this [`Self::SideBySideQuincunx`]?
    pub fn is_side_by_side_quincunx(&self) -> (r: bool)
        ensures
            r == (self@ == Term::Named(5)),
    {
        matches!(self, StereoMode::SideBySideQuincunx)
    }

    /// Is this [`Self::Lines`]?
    pub fn is_lines(&self) -> (r: bool)
        ensures
            r == (self@ == Term::Named(6)),
    {
        matches!(self, StereoMode::Lines)
    }

    /// Is this [`Self::Columns`]?
    pub fn is_columns(&self) -> (r: bool)
        ensures
            r == (self@ == Term::Named(7)),
    {
        matches!(self, StereoMode::Columns)
    }

    /// Is this a name the roster does not carry?
    pub fn is_other(&self) -> (r: bool)
        ensures
            r == (self@ is Other),
    {
        matches!(self, StereoMode::Other(_))
    }
}

impl Default for StereoMode {
    /// [`Self::Mono`].
    fn default() -> (r: Self)
        ensures
            r@ == Term::Named(0),
    {
        StereoMode::Mono
    }
}

impl PartialEq for StereoMode {
    fn eq(&self, other: &Self) -> (r: bool) {
        match (self, other) {
            (StereoMode::Other(a), StereoMode::Other(b)) => str_equal(a.as_str(), b.as_str()),
            (StereoMode::Other(_), _) => false,
            (_, StereoMode::Other(_)) => false,
            _ => self.to_u32_index() == other.to_u32_index(),
        }
    }
}

impl PartialEqSpecImpl for StereoMode {
    open spec fn obeys_eq_spec() -> bool {
        true
    }

    open spec fn eq_spec(&self, other: &Self) -> bool {
        self@ == other@
    }
}

impl StereoMode {
    /// The roster position of a named stereo mode; the roster's length for [`Self::Other`].
    fn to_u32_index(&self) -> (r: usize)
        ensures
            self@ matches Term::Named(i) ==> r == i,
            self@ is Other ==> r == 8,
    {
        match self {
            StereoMode::Mono => 0,
            StereoMode::SideBySide => 1,
            StereoMode::TopBottom => 2,
            StereoMode::FrameSequence => 3,
            StereoMode::Checkerboard => 4,
            StereoMode::SideBySideQuincunx => 5,
            StereoMode::Lines => 6,
            StereoMode::Columns => 7,
            StereoMode::Other(_) => 8,
        }
    }
}

impl core::str::FromStr for StereoMode {
    type Err = core::convert::Infallible;

    fn from_str(s: &str) -> Result<Self, Self::Err> {
        Ok(StereoMode::parse(s))
    }
}

/// The stereo mode roster is lowercase-canonical and spells no two members alike.
pub proof fn lemma_stereo_mode_slugs_well_formed()
    ensures
        well_formed_roster(stereo_mode_slugs()),
{
    reveal_strlit("mono");
    reveal_strlit("side-by-side");
    reveal_strlit("top-bottom");
    reveal_strlit("frame-sequence");
    reveal_strlit("checkerboard");
    reveal_strlit("side-by-side-quincunx");
    reveal_strlit("lines");
    reveal_strlit("columns");
    let s = stereo_mode_slugs();
    assert(s.len() == 8);
    assert forall|i: int| 0 <= i < s.len() implies lower(#[trigger] s[i]) == s[i] by {
        if i == 0 {
            assert(lower(s[0]) =~= s[0]);
        } else if i == 1 {
            assert(lower(s[1]) =~= s[1]);
        } else if i == 2 {
            assert(lower(s[2]) =~= s[2]);
        } else if i == 3 {
            assert(lower(s[3]) =~= s[3]);
        } else if i == 4 {
            assert(lower(s[4]) =~= s[4]);
        } else if i == 5 {
            assert(lower(s[5]) =~= s[5]);
        } else if i == 6 {
            assert(lower(s[6]) =~= s[6]);
        } else if i == 7 {
            assert(lower(s[7]) =~= s[7]);
        }
    }
    assert forall|i: int, j: int| 0 <= i < j < s.len() implies #[trigger] s[i] != #[trigger] s[j] by {
        if i == 0 && j == 1 {
            assert(s[0] != s[1]);
        } else if i == 0 && j == 2 {
            assert(s[0] != s[2]);
        } else if i == 0 && j == 3 {
            assert(s[0] != s[3]);
        } else if i == 0 && j == 4 {
            assert(s[0] != s[4]);
        } else if i == 0 && j == 5 {
            assert(s[0] != s[5]);
        } else if i == 0 && j == 6 {
            assert(s[0] != s[6]);
        } else if i == 0 && j == 7 {
            assert(s[0] != s[7]);
        } else if i == 1 && j == 2 {
            assert(s[1] != s[2]);
        } else if i == 1 && j == 3 {
            assert(s[1] != s[3]);
        } else if i == 1 && j == 4 {
            assert(s[1][0] != s[4][0]);
            assert(s[1] != s[4]);
        } else if i == 1 && j == 5 {
            assert(s[1] != s[5]);
        } else if i == 1 && j == 6 {
            assert(s[1] != s[6]);
        } else if i == 1 && j == 7 {
            assert(s[1] != s[7]);
        } else if i == 2 && j == 3 {
            assert(s[2] != s[3]);
        } else if i == 2 && j == 4 {
            assert(s[2] != s[4]);
        } else if i == 2 && j == 5 {
            assert(s[2] != s[5]);
        } else if i == 2 && j == 6 {
            assert(s[2] != s[6]);
        } else if i == 2 && j == 7 {
            assert(s[2] != s[7]);
        } else if i == 3 && j == 4 {
            assert(s[3] != s[4]);
        } else if i == 3 && j == 5 {
            assert(s[3] != s[5]);
        } else if i == 3 && j == 6 {
            assert(s[3] != s[6]);
        } else if i == 3 && j == 7 {
            assert(s[3] != s[7]);
        } else if i == 4 && j == 5 {
            assert(s[4] != s[5]);
        } else if i == 4 && j == 6 {
            assert(s[4] != s[6]);
        } else if i == 4 && j == 7 {
            assert(s[4] != s[7]);
        } else if i == 5 && j == 6 {
            assert(s[5] != s[6]);
        } else if i == 5 && j == 7 {
            assert(s[5] != s[7]);
        } else if i == 6 && j == 7 {
            assert(s[6] != s[7]);
        }
    }
}

/// **Every named stereo mode survives its slug**, in its own spelling and in ASCII upper case, and its
/// wire id decodes back to it.
pub proof fn law_stereo_mode_slugs_named_round_trip(i: nat)
    requires
        i < 8,
    ensures
        parse_term(stereo_mode_slugs(), term_text(stereo_mode_slugs(), Term::Named(i))) == Term::Named(i),
        parse_term(stereo_mode_slugs(), upper(term_text(stereo_mode_slugs(), Term::Named(i)))) == Term::Named(i),
        lower(term_text(stereo_mode_slugs(), Term::Named(i))) == term_text(stereo_mode_slugs(), Term::Named(i)),
        code_term(term_code(Term::Named(i))->0 as nat, 8) == Some(Term::Named(i)),
{
    lemma_stereo_mode_slugs_well_formed();
    lemma_named_round_trip(stereo_mode_slugs(), i as int);
}

/// **The stereo mode parse is idempotent through the text form**: what a parsed value renders parses
/// back as that value, for every input — a stranger included.
pub proof fn law_stereo_mode_slugs_parse_is_idempotent(text: Seq<char>)
    ensures
        parse_term(stereo_mode_slugs(), term_text(stereo_mode_slugs(), parse_term(stereo_mode_slugs(), text))) == parse_term(
            stereo_mode_slugs(),
            text,
        ),
{
    lemma_stereo_mode_slugs_well_formed();
    lemma_parse_render_parse(stereo_mode_slugs(), text);
}

/// The refusal of a closed rotation vocabulary: the text names no rotation. The parse here keeps
/// every unnamed spelling in [`Rotation::Other`], so this is the refusal a closed reading gives.
#[derive(Debug, Clone, Copy, PartialEq, Eq, Hash, Structural)]
pub struct ParseRotationError;

impl ParseRotationError {
    /// The sentence this refusal renders.
    pub fn to_string(&self) -> (r: String)
        ensures
            r@ == "not a rotation"@,
    {
        String::from_str("not a rotation")
    }
}

/// The refusal of a closed field-order vocabulary: the text names no field order.
#[derive(Debug, Clone, Copy, PartialEq, Eq, Hash, Structural)]
pub struct ParseFieldOrderError;

impl ParseFieldOrderError {
    /// The sentence this refusal renders.
    pub fn to_string(&self) -> (r: String)
        ensures
            r@ == "not a field-order name"@,
    {
        String::from_str("not a field-order name")
    }
}

/// The refusal of a closed stereo-mode vocabulary: the text names no stereo mode.
#[derive(Debug, Clone, Copy, PartialEq, Eq, Hash, Structural)]
pub struct ParseStereoModeError;

impl ParseStereoModeError {
    /// The sentence this refusal renders.
    pub fn to_string(&self) -> (r: String)
        ensures
            r@ == "not a stereo-mode name"@,
    {
        String::from_str("not a stereo-mode name")
    }
}

} // verus!
