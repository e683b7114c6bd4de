use vstd::prelude::*;

use crate::playback::PlayState;

verus! {

/// The colour of a key's badge.
#[derive(Clone, Copy, Debug, PartialEq, Eq, Structural)]
pub enum GuideColor {
    /// Keys of the area at hand.
    Magenta,
    /// Keys that work everywhere.
    Gray,
}

/// One entry of the key guide at the bottom of the screen: a key and what it does.
#[derive(Clone, Copy, Debug)]
pub struct KeyGuide {
    pub key: &'static str,
    pub desc: &'static str,
    pub color: GuideColor,
}

impl KeyGuide {
    /// A guide for a key of the area at hand.
    pub fn new_mazenta(key: &'static str, desc: &'static str) -> (r: Self)
        ensures
            r.key == key,
            r.desc == desc,
            r.color == GuideColor::Magenta,
    {
        KeyGuide { key, desc, color: GuideColor::Magenta }
    }

    /// A guide for a key that works everywhere.
    pub fn new_gray(key: &'static str, desc: &'static str) -> (r: Self)
        ensures
            r.key == key,
            r.desc == desc,
            r.color == GuideColor::Gray,
    {
        KeyGuide { key, desc, color: GuideColor::Gray }
    }

    /// "Esc: Cancel", the first guide of every entered area.
    pub fn esc_default() -> (r: Self)
        ensures
            r.key@ == "Esc"@,
            r.desc@ == "Cancel"@,
            r.color == GuideColor::Magenta,
    {
        KeyGuide::new_mazenta("Esc", "Cancel")
    }

    /// The guides shown in every area: the space bar while something plays or is paused, then
    /// the volume, open and quit keys.
    pub fn get_global_gudies(play_state: &PlayState) -> (r: Vec<KeyGuide>)
        ensures
            guides_view(r@) == spec_global_guides(*play_state),
    {
        let mut v: Vec<KeyGuide> = Vec::new();
        match play_state {
            PlayState::Playing(_) => {
                v.push(KeyGuide::new_gray("Space", "Pause"));
                v.push(KeyGuide::new_gray("Ctrl+Space", "Stop"));
            },
            PlayState::Paused(_) => {
                v.push(KeyGuide::new_gray("Space", "Resume"));
                v.push(KeyGuide::new_gray("Ctrl+Space", "Stop"));
            },
            PlayState::Stopped => {},
        }
        v.push(KeyGuide::new_gray("Ctrl+↑", "Volume +10"));
        v.push(KeyGuide::new_gray("Ctrl+↓", "Volume -10"));
        v.push(KeyGuide::new_gray("Ctrl+O", "Open files"));
        v.push(KeyGuide::new_gray("Ctrl+D", "Quit Oscilla"));
        assert(guides_view(v@) =~= spec_global_guides(*play_state));
        v
    }
}

/// A guide as the text of its key, the text of its description and its colour.
pub open spec fn guide_view(g: KeyGuide) -> (Seq<char>, Seq<char>, GuideColor) {
    (g.key@, g.desc@, g.color)
}

/// Guides as text.
pub open spec fn guides_view(gs: Seq<KeyGuide>) -> Seq<(Seq<char>, Seq<char>, GuideColor)> {
    gs.map_values(|g: KeyGuide| guide_view(g))
}

/// The text of guides laid end to end is the text of each laid end to end.
pub proof fn lemma_guides_view_concat(a: Seq<KeyGuide>, b: Seq<KeyGuide>)
    ensures
        guides_view(a + b) == guides_view(a) + guides_view(b),
{
    assert(guides_view(a + b) =~= guides_view(a) + guides_view(b));
}

/// The guides shown in every area, as text: Space and Ctrl+Space while a track plays or is
/// paused, then the volume, open and quit keys.
pub open spec fn spec_global_guides(play_state: PlayState) -> Seq<(Seq<char>, Seq<char>, GuideColor)> {
    let g = GuideColor::Gray;
    let space = match play_state {
        PlayState::Playing(_) => seq![("Space"@, "Pause"@, g), ("Ctrl+Space"@, "Stop"@, g)],
        PlayState::Paused(_) => seq![("Space"@, "Resume"@, g), ("Ctrl+Space"@, "Stop"@, g)],
        PlayState::Stopped => seq![],
    };
    space + seq![
        ("Ctrl+↑"@, "Volume +10"@, g),
        ("Ctrl+↓"@, "Volume -10"@, g),
        ("Ctrl+O"@, "Open files"@, g),
        ("Ctrl+D"@, "Quit Oscilla"@, g),
    ]
}

/// The width of a text on the terminal, as `ratatui`'s `Span::width` reports it.
pub uninterp spec fn spec_text_width(s: Seq<char>) -> nat;

/// `ratatui::text::Span::width`: the display width of `s`, named by `spec_text_width`.
#[verifier::external_body]
fn text_width(s: &str) -> (r: usize)
    ensures
        r == spec_text_width(s@),
{
    ratatui::text::Span::raw(s).width()
}

/// The width of a guide as drawn: " key ", a space, then the description.
pub open spec fn spec_guide_width(g: KeyGuide) -> nat {
    spec_text_width(seq![' '] + g.key@ + seq![' ']) + spec_text_width(seq![' '])
        + spec_text_width(g.desc@)
}

/// The drawn width of `g`.
pub fn guide_width(g: &KeyGuide) -> (r: u128)
    ensures
        r == spec_guide_width(*g),
{
    let mut badge = " ".to_owned();
    proof {
        reveal_strlit(" ");
    }
    badge.append(g.key);
    badge.append(" ");
    let a = text_width(badge.as_str()) as u128;
    let b = text_width(" ") as u128;
    let c = text_width(g.desc) as u128;
    assert(" "@ =~= seq![' ']);
    assert(badge@ =~= seq![' '] + g.key@ + seq![' ']);
    a + b + c
}

/// Width of the gap between two guides.
pub const GUIDE_SEPARATOR_WIDTH: u128 = 3;

/// How much of a guide line fits: the guides taken, whether a gap follows the last of them, and
/// the width used.
#[derive(Clone, Copy, Debug, PartialEq, Eq, Structural)]
pub struct LineLayout {
    pub items: usize,
    pub trailing_separator: bool,
    pub width: u128,
}

/// Fits the guides of widths `ws[from..]` after a line of width `used`, taking guides in order,
/// each after a gap, while the line stays within `avail`; the first guide that does not fit ends
/// the line, as does a gap that does not fit.
pub open spec fn spec_fit(ws: Seq<nat>, from: int, used: nat, avail: nat, taken: nat, trailing: bool) -> LineLayout
    decreases ws.len() - from,
{
    if from >= ws.len() || from < 0 {
        LineLayout { items: taken as usize, trailing_separator: trailing, width: used as u128 }
    } else if from != 0 && used + 3 > avail {
        LineLayout { items: taken as usize, trailing_separator: false, width: used as u128 }
    } else {
        let u = if from != 0 {
            used + 3
        } else {
            used
        };
        if u + ws[from] <= avail {
            spec_fit(ws, from + 1, u + ws[from], avail, taken + 1, false)
        } else {
            LineLayout { items: taken as usize, trailing_separator: from != 0, width: u as u128 }
        }
    }
}

pub open spec fn guide_widths(gs: Seq<KeyGuide>) -> Seq<nat> {
    gs.map_values(|g: KeyGuide| spec_guide_width(g))
}

/// Lays out a line of key guides within `available_width` columns, as the bottom line does.
pub fn fit_key_guides(guides: &Vec<KeyGuide>, available_width: usize) -> (r: LineLayout)
    ensures
        r == spec_fit(guide_widths(guides@), 0, 0, available_width as nat, 0, false),
        r.width <= available_width,
        r.items <= guides@.len(),
{
    let ghost ws = guide_widths(guides@);
    let avail = available_width as u128;
    let mut used: u128 = 0;
    let mut taken: usize = 0;
    let mut i: usize = 0;
    let n = guides.len();
    proof {
        lemma_fit_bounded(ws, 0, 0, avail as nat, 0, false);
    }
    while i < n
        invariant
            n == guides@.len(),
            ws == guide_widths(guides@),
            i <= n,
            taken == i,
            used <= avail,
            avail == available_width,
            spec_fit(ws, 0, 0, avail as nat, 0, false) == spec_fit(
                ws,
                i as int,
                used as nat,
                avail as nat,
                taken as nat,
                false,
            ),
        decreases n - i,
    {
        if i != 0 {
            if used + GUIDE_SEPARATOR_WIDTH > avail {
                return LineLayout { items: taken, trailing_separator: false, width: used };
            }
            used = used + GUIDE_SEPARATOR_WIDTH;
        }
        let w = guide_width(&guides[i]);
        if w <= avail - used {
            used = used + w;
            taken = taken + 1;
            i = i + 1;
        } else {
            return LineLayout { items: taken, trailing_separator: i != 0, width: used };
        }
    }
    LineLayout { items: taken, trailing_separator: false, width: used }
}

proof fn lemma_fit_bounded(ws: Seq<nat>, from: int, used: nat, avail: nat, taken: nat, trailing: bool)
    requires
        used <= avail,
        0 <= from,
    ensures
        spec_fit(ws, from, used, avail, taken, trailing).width <= avail,
    decreases ws.len() - from,
{
    if from < ws.len() {
        if !(from != 0 && used + 3 > avail) {
            let u = if from != 0 {
                used + 3
            } else {
                used
            };
            if u + ws[from] <= avail {
                lemma_fit_bounded(ws, from + 1, u + ws[from], avail, taken + 1, false);
            }
        }
    }
}

/// A laid-out guide line never needs more columns than it is given.
pub proof fn lemma_guide_line_fits(ws: Seq<nat>, avail: nat)
    ensures
        spec_fit(ws, 0, 0, avail, 0, false).width <= avail,
{
    lemma_fit_bounded(ws, 0, 0, avail, 0, false);
}

} // verus!
