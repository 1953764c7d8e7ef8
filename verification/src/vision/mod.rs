//! What the bot asks of each captured frame, and what it gets back.
//!
//! Thresholds are whole numbers here; the capture side turns them into the
//! floating-point values that the image library takes.
use vstd::prelude::*;
use crate::app::states::Game;

pub mod found;
pub mod ntr;
pub mod stream;

verus! {

/// Count the pixels of a region that pass a grey-level threshold.
#[derive(Clone, Copy, Debug, PartialEq, Eq, Structural)]
pub struct RegionDetectSettings {
    pub x: i32,
    pub y: i32,
    pub w: i32,
    pub h: i32,
    pub col_thresh: u32,
    pub num_thresh: i32,
    pub invert: bool,
}

/// A colour channel of a frame.
#[derive(Clone, Copy, Debug, PartialEq, Eq, Structural)]
pub enum ColourChannel {
    Blue,
    Green,
    Red,
}

/// Count the pixels of a region whose channel passes a threshold.
#[derive(Clone, Copy, Debug, PartialEq, Eq, Structural)]
pub struct ColourChannelDetectSettings {
    pub x: i32,
    pub y: i32,
    pub w: i32,
    pub h: i32,
    pub col_thresh: u32,
    pub num_thresh: i32,
    pub invert: bool,
    pub colour: ColourChannel,
}

/// As [`ColourChannelDetectSettings`], on one of the two 3DS screens.
#[derive(Clone, Copy, Debug, PartialEq, Eq, Structural)]
pub struct ColourChannelDetect3DSSettings {
    pub x: i32,
    pub y: i32,
    pub w: i32,
    pub h: i32,
    pub col_thresh: u32,
    pub num_thresh: i32,
    pub invert: bool,
    pub colour: ColourChannel,
    pub top: bool,
}

/// Count the pixels of a region that fall in an HSV box.
#[derive(Clone, Copy, Debug, PartialEq, Eq, Structural)]
pub struct ChannelDetectSettings {
    pub x: i32,
    pub y: i32,
    pub w: i32,
    pub h: i32,
    pub h_lo: u32,
    pub s_lo: u32,
    pub v_lo: u32,
    pub h_hi: u32,
    pub s_hi: u32,
    pub v_hi: u32,
    pub num_thresh: i32,
}

/// The frame checks of fishing on Ruby / Sapphire: the line is cast, a
/// Pokemon bites, it is on the hook, or nothing nibbled. Their image
/// settings belong to whatever reads the frames.
#[derive(Clone, Copy, Debug, PartialEq, Eq, Structural)]
pub enum FishingCheck {
    Active,
    Bite,
    OnHook,
    NoNibble,
}

/// One kind of processing of a frame.
#[derive(Debug)]
pub enum Processing {
    /// Match one of the listed sprites, flipped or not.
    Sprite(Game, Vec<u32>, bool),
    /// Match one of the listed sprites on a 3DS screen.
    Sprite3DS(Game, Vec<u32>),
    RegionDetect(RegionDetectSettings),
    ColourChannelDetect(ColourChannelDetectSettings),
    ColourChannelDetect3DS(ColourChannelDetect3DSSettings),
    ChannelDetect(ChannelDetectSettings),
    USUMShinyStar(u32),
    /// The mean brightness of the bottom screen is above the threshold.
    USUMBottomScreen(u32),
    /// The mean brightness of the bottom screen is below the threshold.
    USUMBottomScreenInv(u32),
    /// A fishing check on Ruby / Sapphire.
    RSFishing(FishingCheck),
}

/// The abstract value of a [`Processing`].
pub enum ProcessingView {
    Sprite(Game, Seq<u32>, bool),
    Sprite3DS(Game, Seq<u32>),
    RegionDetect(RegionDetectSettings),
    ColourChannelDetect(ColourChannelDetectSettings),
    ColourChannelDetect3DS(ColourChannelDetect3DSSettings),
    ChannelDetect(ChannelDetectSettings),
    USUMShinyStar(u32),
    USUMBottomScreen(u32),
    USUMBottomScreenInv(u32),
    RSFishing(FishingCheck),
}

impl View for Processing {
    type V = ProcessingView;

    open spec fn view(&self) -> ProcessingView {
        match self {
            Processing::Sprite(g, v, f) => ProcessingView::Sprite(*g, v@, *f),
            Processing::Sprite3DS(g, v) => ProcessingView::Sprite3DS(*g, v@),
            Processing::RegionDetect(s) => ProcessingView::RegionDetect(*s),
            Processing::ColourChannelDetect(s) => ProcessingView::ColourChannelDetect(*s),
            Processing::ColourChannelDetect3DS(s) => ProcessingView::ColourChannelDetect3DS(*s),
            Processing::ChannelDetect(s) => ProcessingView::ChannelDetect(*s),
            Processing::USUMShinyStar(t) => ProcessingView::USUMShinyStar(*t),
            Processing::USUMBottomScreen(t) => ProcessingView::USUMBottomScreen(*t),
            Processing::USUMBottomScreenInv(t) => ProcessingView::USUMBottomScreenInv(*t),
            Processing::RSFishing(c) => ProcessingView::RSFishing(*c),
        }
    }
}

/// Copies a list of species.
pub fn copy_u32s(v: &Vec<u32>) -> (r: Vec<u32>)
    ensures
        r@ == v@,
{
    let mut r: Vec<u32> = Vec::new();
    let mut i: usize = 0;
    while i < v.len()
        invariant
            i <= v.len(),
            r@ == v@.subrange(0, i as int),
        decreases v.len() - i,
    {
        r.push(v[i]);
        i = i + 1;
        assert(r@ =~= v@.subrange(0, i as int));
    }
    assert(v@.subrange(0, v.len() as int) =~= v@);
    r
}

/// Compares two lists of species.
pub fn u32s_equal(a: &Vec<u32>, b: &Vec<u32>) -> (r: bool)
    ensures
        r == (a@ == b@),
{
    if a.len() != b.len() {
        return false;
    }
    let mut i: usize = 0;
    while i < a.len()
        invariant
            a.len() == b.len(),
            i <= a.len(),
            forall|j: int| 0 <= j < i ==> a@[j] == b@[j],
        decreases a.len() - i,
    {
        if a[i] != b[i] {
            return false;
        }
        i = i + 1;
    }
    assert(a@ =~= b@);
    true
}

impl Processing {
    /// A copy of the processing request.
    pub fn duplicate(&self) -> (r: Self)
        ensures
            r@ == self@,
    {
        match self {
            Processing::Sprite(g, v, f) => Processing::Sprite(*g, copy_u32s(v), *f),
            Processing::Sprite3DS(g, v) => Processing::Sprite3DS(*g, copy_u32s(v)),
            Processing::RegionDetect(s) => Processing::RegionDetect(*s),
            Processing::ColourChannelDetect(s) => Processing::ColourChannelDetect(*s),
            Processing::ColourChannelDetect3DS(s) => Processing::ColourChannelDetect3DS(*s),
            Processing::ChannelDetect(s) => Processing::ChannelDetect(*s),
            Processing::USUMShinyStar(t) => Processing::USUMShinyStar(*t),
            Processing::USUMBottomScreen(t) => Processing::USUMBottomScreen(*t),
            Processing::USUMBottomScreenInv(t) => Processing::USUMBottomScreenInv(*t),
            Processing::RSFishing(c) => Processing::RSFishing(*c),
        }
    }

    /// Whether two processing requests are the same.
    pub fn same_as(&self, other: &Processing) -> (r: bool)
        ensures
            r == (self@ == other@),
    {
        match (self, other) {
            (Processing::Sprite(g1, v1, f1), Processing::Sprite(g2, v2, f2)) =>
                *g1 == *g2 && *f1 == *f2 && u32s_equal(v1, v2),
            (Processing::Sprite3DS(g1, v1), Processing::Sprite3DS(g2, v2)) =>
                *g1 == *g2 && u32s_equal(v1, v2),
            (Processing::RegionDetect(a), Processing::RegionDetect(b)) => *a == *b,
            (Processing::ColourChannelDetect(a), Processing::ColourChannelDetect(b)) => *a == *b,
            (Processing::ColourChannelDetect3DS(a), Processing::ColourChannelDetect3DS(b)) => *a == *b,
            (Processing::ChannelDetect(a), Processing::ChannelDetect(b)) => *a == *b,
            (Processing::USUMShinyStar(a), Processing::USUMShinyStar(b)) => *a == *b,
            (Processing::USUMBottomScreen(a), Processing::USUMBottomScreen(b)) => *a == *b,
            (Processing::USUMBottomScreenInv(a), Processing::USUMBottomScreenInv(b)) => *a == *b,
            (Processing::RSFishing(a), Processing::RSFishing(b)) => *a == *b,
            _ => false,
        }
    }

    /// Whether this is a request to match sprites on a DS screen.
    pub fn is_sprite(&self) -> (r: bool)
        ensures
            r == (self@ is Sprite),
    {
        match self {
            Processing::Sprite(..) => true,
            _ => false,
        }
    }

    /// Whether this is a request to match sprites on a 3DS screen.
    pub fn is_sprite_3ds(&self) -> (r: bool)
        ensures
            r == (self@ is Sprite3DS),
    {
        match self {
            Processing::Sprite3DS(..) => true,
            _ => false,
        }
    }
}

/// A region check over the whole DS screen or a part of it.
pub open spec fn region(x: i32, y: i32, w: i32, h: i32, col: u32, num: i32, invert: bool) -> ProcessingView {
    ProcessingView::RegionDetect(RegionDetectSettings { x, y, w, h, col_thresh: col, num_thresh: num, invert })
}

fn region_detect(x: i32, y: i32, w: i32, h: i32, col: u32, num: i32, invert: bool) -> (r: Processing)
    ensures
        r@ == region(x, y, w, h, col, num, invert),
{
    Processing::RegionDetect(RegionDetectSettings { x, y, w, h, col_thresh: col, num_thresh: num, invert })
}

/// The frame check `Processing::BW2_BLACK_SCREEN` asks for.
pub open spec fn bw2_black_screen() -> ProcessingView {
    region(0, 0, 256, 192, 15, 45000, true)
}

/// The frame check `Processing::BW2_WHITE_SCREEN` asks for.
pub open spec fn bw2_white_screen() -> ProcessingView {
    region(0, 0, 256, 192, 210, 45000, false)
}

/// The frame check `Processing::BW2_BAR_PRESENT` asks for.
pub open spec fn bw2_bar_present() -> ProcessingView {
    region(0, 150, 256, 40, 75, 7000, true)
}

/// The frame check `Processing::BW2_BAR_NEGATE_CONFIRM` asks for.
pub open spec fn bw2_bar_negate_confirm() -> ProcessingView {
    region(0, 0, 256, 40, 50, 5000, true)
}

/// The frame check `Processing::DP_START_ENCOUNTER_WHITE` asks for.
pub open spec fn dp_start_encounter_white() -> ProcessingView {
    region(0, 0, 256, 192, 210, 20000, false)
}

/// The frame check `Processing::DP_START_ENCOUNTER` asks for.
pub open spec fn dp_start_encounter() -> ProcessingView {
    region(0, 145, 256, 47, 40, 10000, true)
}

/// The frame check `Processing::HGSS_BLACK_SCREEN` asks for.
pub open spec fn hgss_black_screen() -> ProcessingView {
    region(0, 0, 256, 192, 40, 49000, true)
}

/// The frame check `Processing::DP_IN_ENCOUNTER` asks for.
pub open spec fn dp_in_encounter() -> ProcessingView {
    region(0, 145, 256, 47, 210, 6500, false)
}

/// The frame check `Processing::DP_ENCOUNTER_READY` asks for.
pub open spec fn dp_encounter_ready() -> ProcessingView {
    region(150, 100, 106, 35, 210, 1500, false)
}

/// The frame check `Processing::HGSS_ENCOUNTER_READY` asks for.
pub open spec fn hgss_encounter_ready() -> ProcessingView {
    region(150, 100, 106, 35, 150, 1500, false)
}

/// The frame check `Processing::DP_SAFARI_ENCOUNTER_READY` asks for.
pub open spec fn dp_safari_encounter_ready() -> ProcessingView {
    region(150, 100, 106, 35, 195, 1400, false)
}

/// The frame check `Processing::FRLG_SHINY_STAR` asks for.
pub open spec fn frlg_shiny_star() -> ProcessingView {
    ProcessingView::ColourChannelDetect(ColourChannelDetectSettings {
        x: 106, y: 52, w: 16, h: 16, col_thresh: 150, num_thresh: 5, invert: true,
        colour: ColourChannel::Blue,
    })
}

/// The frame check `Processing::USUM_SHINY_STAR` asks for.
pub open spec fn usum_shiny_star() -> ProcessingView {
    ProcessingView::ColourChannelDetect3DS(ColourChannelDetect3DSSettings {
        x: 54, y: 181, w: 17, h: 17, col_thresh: 150, num_thresh: 5, invert: true,
        colour: ColourChannel::Green, top: false,
    })
}

/// The frame check `Processing::FRLG_SHINY_STAR_OLD` asks for.
pub open spec fn frlg_shiny_star_old() -> ProcessingView {
    region(106, 52, 16, 16, 200, 190, false)
}

/// The frame check `Processing::RS_FISHING_ACTIVE` asks for.
pub open spec fn rs_fishing_active() -> ProcessingView {
    ProcessingView::RSFishing(FishingCheck::Active)
}

/// The frame check `Processing::RS_FISHING_BITE` asks for.
pub open spec fn rs_fishing_bite() -> ProcessingView {
    ProcessingView::RSFishing(FishingCheck::Bite)
}

/// The frame check `Processing::RS_FISHING_ON_HOOK` asks for.
pub open spec fn rs_fishing_on_hook() -> ProcessingView {
    ProcessingView::RSFishing(FishingCheck::OnHook)
}

/// The frame check `Processing::RS_FISHING_NO_NIBBLE` asks for.
pub open spec fn rs_fishing_no_nibble() -> ProcessingView {
    ProcessingView::RSFishing(FishingCheck::NoNibble)
}

/// The frame check `Processing::FRLG_START_ENCOUNTER` asks for.
pub open spec fn frlg_start_encounter() -> ProcessingView {
    region(20, 140, 215, 30, 40, 6000, true)
}

/// The frame check `Processing::FRLG_IN_ENCOUNTER` asks for.
pub open spec fn frlg_in_encounter() -> ProcessingView {
    region(20, 140, 215, 30, 55, 5000, false)
}

/// The frame check `Processing::FRLG_ENCOUNTER_READY` asks for.
pub open spec fn frlg_encounter_ready() -> ProcessingView {
    ProcessingView::ChannelDetect(ChannelDetectSettings {
        x: 20, y: 140, w: 215, h: 30, h_lo: 0, s_lo: 60, v_lo: 100, h_hi: 40, s_hi: 255,
        v_hi: 255, num_thresh: 10,
    })
}

/// The named processing requests that the hunts use.
#[allow(non_snake_case)]
impl Processing {
    pub fn BW2_BLACK_SCREEN() -> (r: Processing)
        ensures
            r@ == bw2_black_screen(),
    {
        region_detect(0, 0, 256, 192, 15, 45000, true)
    }

    pub fn BW2_WHITE_SCREEN() -> (r: Processing)
        ensures
            r@ == bw2_white_screen(),
    {
        region_detect(0, 0, 256, 192, 210, 45000, false)
    }

    pub fn BW2_BAR_PRESENT() -> (r: Processing)
        ensures
            r@ == bw2_bar_present(),
    {
        region_detect(0, 150, 256, 40, 75, 7000, true)
    }

    pub fn BW2_BAR_NEGATE_CONFIRM() -> (r: Processing)
        ensures
            r@ == bw2_bar_negate_confirm(),
    {
        region_detect(0, 0, 256, 40, 50, 5000, true)
    }

    pub fn DP_START_ENCOUNTER_WHITE() -> (r: Processing)
        ensures
            r@ == dp_start_encounter_white(),
    {
        region_detect(0, 0, 256, 192, 210, 20000, false)
    }

    pub fn DP_START_ENCOUNTER() -> (r: Processing)
        ensures
            r@ == dp_start_encounter(),
    {
        region_detect(0, 145, 256, 47, 40, 10000, true)
    }

    pub fn HGSS_BLACK_SCREEN() -> (r: Processing)
        ensures
            r@ == hgss_black_screen(),
    {
        region_detect(0, 0, 256, 192, 40, 49000, true)
    }

    pub fn DP_IN_ENCOUNTER() -> (r: Processing)
        ensures
            r@ == dp_in_encounter(),
    {
        region_detect(0, 145, 256, 47, 210, 6500, false)
    }

    pub fn DP_ENCOUNTER_READY() -> (r: Processing)
        ensures
            r@ == dp_encounter_ready(),
    {
        region_detect(150, 100, 106, 35, 210, 1500, false)
    }

    pub fn HGSS_ENCOUNTER_READY() -> (r: Processing)
        ensures
            r@ == hgss_encounter_ready(),
    {
        region_detect(150, 100, 106, 35, 150, 1500, false)
    }

    pub fn DP_SAFARI_ENCOUNTER_READY() -> (r: Processing)
        ensures
            r@ == dp_safari_encounter_ready(),
    {
        region_detect(150, 100, 106, 35, 195, 1400, false)
    }

    pub fn FRLG_SHINY_STAR() -> (r: Processing)
        ensures
            r@ == frlg_shiny_star(),
    {
        Processing::ColourChannelDetect(ColourChannelDetectSettings {
            x: 106, y: 52, w: 16, h: 16, col_thresh: 150, num_thresh: 5, invert: true,
            colour: ColourChannel::Blue,
        })
    }

    pub fn USUM_SHINY_STAR() -> (r: Processing)
        ensures
            r@ == usum_shiny_star(),
    {
        Processing::ColourChannelDetect3DS(ColourChannelDetect3DSSettings {
            x: 54, y: 181, w: 17, h: 17, col_thresh: 150, num_thresh: 5, invert: true,
            colour: ColourChannel::Green, top: false,
        })
    }

    pub fn FRLG_SHINY_STAR_OLD() -> (r: Processing)
        ensures
            r@ == frlg_shiny_star_old(),
    {
        region_detect(106, 52, 16, 16, 200, 190, false)
    }

    pub fn FRLG_START_ENCOUNTER() -> (r: Processing)
        ensures
            r@ == frlg_start_encounter(),
    {
        region_detect(20, 140, 215, 30, 40, 6000, true)
    }

    pub fn FRLG_IN_ENCOUNTER() -> (r: Processing)
        ensures
            r@ == frlg_in_encounter(),
    {
        region_detect(20, 140, 215, 30, 55, 5000, false)
    }

    pub fn FRLG_ENCOUNTER_READY() -> (r: Processing)
        ensures
            r@ == frlg_encounter_ready(),
    {
        Processing::ChannelDetect(ChannelDetectSettings {
            x: 20, y: 140, w: 215, h: 30, h_lo: 0, s_lo: 60, v_lo: 100, h_hi: 40, s_hi: 255,
            v_hi: 255, num_thresh: 10,
        })
    }

    pub fn RS_FISHING_ACTIVE() -> (r: Processing)
        ensures
            r@ == rs_fishing_active(),
    {
        Processing::RSFishing(FishingCheck::Active)
    }

    pub fn RS_FISHING_BITE() -> (r: Processing)
        ensures
            r@ == rs_fishing_bite(),
    {
        Processing::RSFishing(FishingCheck::Bite)
    }

    pub fn RS_FISHING_ON_HOOK() -> (r: Processing)
        ensures
            r@ == rs_fishing_on_hook(),
    {
        Processing::RSFishing(FishingCheck::OnHook)
    }

    pub fn RS_FISHING_NO_NIBBLE() -> (r: Processing)
        ensures
            r@ == rs_fishing_no_nibble(),
    {
        Processing::RSFishing(FishingCheck::NoNibble)
    }
}

/// The outcome of one processing request on one frame.
#[derive(Debug)]
pub struct ProcessingResult {
    pub process: Processing,
    pub met: bool,
    pub species: u32,
    pub shiny: bool,
}

/// The abstract value of a [`ProcessingResult`].
pub struct ProcessingResultView {
    pub process: ProcessingView,
    pub met: bool,
    pub species: u32,
    pub shiny: bool,
}

impl View for ProcessingResult {
    type V = ProcessingResultView;

    open spec fn view(&self) -> ProcessingResultView {
        ProcessingResultView { process: self.process@, met: self.met, species: self.species, shiny: self.shiny }
    }
}

/// The abstract values of a list of results.
pub open spec fn results_view(rs: Seq<ProcessingResult>) -> Seq<ProcessingResultView> {
    rs.map_values(|r: ProcessingResult| r@)
}

/// The abstract values of a list of processing requests.
pub open spec fn processings_view(ps: Seq<Processing>) -> Seq<ProcessingView> {
    ps.map_values(|p: Processing| p@)
}

/// Copies a list of processing requests.
pub fn copy_processings(v: &Vec<Processing>) -> (r: Vec<Processing>)
    ensures
        processings_view(r@) == processings_view(v@),
{
    let mut r: Vec<Processing> = Vec::new();
    let mut i: usize = 0;
    while i < v.len()
        invariant
            i <= v.len(),
            r@.len() == i,
            forall|j: int| 0 <= j < i ==> (#[trigger] r@[j])@ == v@[j]@,
        decreases v.len() - i,
    {
        r.push(v[i].duplicate());
        i = i + 1;
    }
    assert(processings_view(r@) =~= processings_view(v@));
    r
}

} // verus!
