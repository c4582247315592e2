//! What a walk over a document's events amounts to, stated over the events
//! themselves.
//!
//! Text is read by the name of the element it stands under. A mode block is
//! an opening `AreaModeStats` tag; mode blocks are taken in runs of three,
//! whatever area they stand in, and a complete run is kept under the area in
//! which its third block stands.

use vstd::prelude::*;
use crate::event::{AttributeView, EventView};
use crate::progress::{AreaData, AreaMode, Celeste, SummaryView};
use crate::text::count_value;

verus! {

/// The name that text is read under after `events`: that of the element
/// opened last, or no name once an element has been closed since.
pub open spec fn current_element(events: Seq<EventView>) -> Seq<char>
    decreases events.len(),
{
    if events.len() == 0 {
        Seq::empty()
    } else {
        match events.last() {
            EventView::Start { name, .. } => name,
            EventView::End => Seq::empty(),
            _ => current_element(events.drop_last()),
        }
    }
}

/// The texts that stand under elements called `name`, in document order.
pub open spec fn texts_under(events: Seq<EventView>, name: Seq<char>) -> Seq<Seq<char>>
    decreases events.len(),
{
    if events.len() == 0 {
        Seq::empty()
    } else {
        let before = events.drop_last();
        match events.last() {
            EventView::Text(text) => if current_element(before) == name {
                texts_under(before, name).push(text)
            } else {
                texts_under(before, name)
            },
            _ => texts_under(before, name),
        }
    }
}

/// The last of some texts, or the empty text where there is none.
pub open spec fn last_text(texts: Seq<Seq<char>>) -> Seq<char> {
    if texts.len() == 0 {
        Seq::empty()
    } else {
        texts.last()
    }
}

/// The flag that the last of some texts sets: on, unless it reads `false`.
/// Without a text the flag is off.
pub open spec fn last_flag(texts: Seq<Seq<char>>) -> bool {
    texts.len() > 0 && texts.last() != "false"@
}

/// The counter that the last of some texts writes, or 0 where there is none.
pub open spec fn last_count(texts: Seq<Seq<char>>) -> i32 {
    if texts.len() == 0 {
        0
    } else {
        count_value(texts.last())
    }
}

/// The counter that the first of some texts writes, or 0 where there is none.
pub open spec fn first_count(texts: Seq<Seq<char>>) -> i32 {
    if texts.len() == 0 {
        0
    } else {
        count_value(texts[0])
    }
}

/// The value of the last attribute called `name`, if there is one.
pub open spec fn attribute_value(attributes: Seq<AttributeView>, name: Seq<char>) -> Option<
    Seq<char>,
>
    decreases attributes.len(),
{
    if attributes.len() == 0 {
        None
    } else if attributes.last().name == name {
        Some(attributes.last().value)
    } else {
        attribute_value(attributes.drop_last(), name)
    }
}

/// The counter that an attribute writes, or 0 where the tag has none of
/// that name.
pub open spec fn attribute_count(attributes: Seq<AttributeView>, name: Seq<char>) -> i32 {
    match attribute_value(attributes, name) {
        Some(value) => count_value(value),
        None => 0,
    }
}

/// The side that the attributes of one mode block describe. The heart gem
/// counts as collected where `HeartGem` reads `false`.
pub open spec fn side_of(attributes: Seq<AttributeView>) -> AreaData {
    AreaData {
        strawberries: attribute_count(attributes, "TotalStrawberries"@),
        deaths: attribute_count(attributes, "Deaths"@),
        heart_gem: attribute_value(attributes, "HeartGem"@) == Some("false"@),
        completed: attribute_value(attributes, "Completed"@) == Some("true"@),
    }
}

/// The area that mode blocks stand in after `events`: the `SID` of the last
/// opening `AreaStats` tag that has one.
pub open spec fn current_area(events: Seq<EventView>) -> Seq<char>
    decreases events.len(),
{
    if events.len() == 0 {
        Seq::empty()
    } else {
        let before = current_area(events.drop_last());
        match events.last() {
            EventView::Start { name, attributes } => if name == "AreaStats"@ {
                match attribute_value(attributes, "SID"@) {
                    Some(area) => area,
                    None => before,
                }
            } else {
                before
            },
            _ => before,
        }
    }
}

/// One mode block: the area it stands in, and the side it describes.
pub struct ModeBlock {
    pub area: Seq<char>,
    pub side: AreaData,
}

/// The mode blocks of a document, in document order.
pub open spec fn mode_blocks(events: Seq<EventView>) -> Seq<ModeBlock>
    decreases events.len(),
{
    if events.len() == 0 {
        Seq::empty()
    } else {
        let before = events.drop_last();
        match events.last() {
            EventView::Start { name, attributes } => if name == "AreaModeStats"@ {
                mode_blocks(before).push(
                    ModeBlock { area: current_area(before), side: side_of(attributes) },
                )
            } else {
                mode_blocks(before)
            },
            _ => mode_blocks(before),
        }
    }
}

/// The run of three mode blocks number `run`, counted from 0, as the sides
/// A, B and C of an area.
pub open spec fn run_of_three(blocks: Seq<ModeBlock>, run: int) -> AreaMode {
    AreaMode {
        a_side: blocks[3 * run].side,
        b_side: blocks[3 * run + 1].side,
        c_side: blocks[3 * run + 2].side,
    }
}

/// What the first `runs` runs of three leave under `area`: the last of them
/// whose third block stands in that area, or an empty area where none does.
pub open spec fn area_progress(blocks: Seq<ModeBlock>, area: Seq<char>, runs: nat) -> AreaMode
    decreases runs,
{
    if runs == 0 {
        AreaMode::empty()
    } else if blocks[3 * runs - 1].area == area {
        run_of_three(blocks, runs - 1)
    } else {
        area_progress(blocks, area, (runs - 1) as nat)
    }
}

/// The run under assembly: the mode blocks that follow the last complete run
/// of three, each in the slot of its position, the other slots empty.
pub open spec fn open_run(blocks: Seq<ModeBlock>) -> AreaMode {
    let filled = blocks.len() % 3;
    let base = blocks.len() - filled;
    AreaMode {
        a_side: if filled >= 1 { blocks[base].side } else { AreaData::empty() },
        b_side: if filled >= 2 { blocks[base + 1].side } else { AreaData::empty() },
        c_side: AreaData::empty(),
    }
}

/// The game that some mode blocks describe, over their complete runs of
/// three. Areas other than the ten of the game are not kept.
pub open spec fn game_of(blocks: Seq<ModeBlock>) -> Celeste {
    let runs = blocks.len() / 3;
    Celeste {
        prologue: area_progress(blocks, "Celeste/0-Intro"@, runs),
        city: area_progress(blocks, "Celeste/1-ForsakenCity"@, runs),
        site: area_progress(blocks, "Celeste/2-OldSite"@, runs),
        resort: area_progress(blocks, "Celeste/3-CelestialResort"@, runs),
        ridge: area_progress(blocks, "Celeste/4-GoldenRidge"@, runs),
        temple: area_progress(blocks, "Celeste/5-MirrorTemple"@, runs),
        reflection: area_progress(blocks, "Celeste/6-Reflection"@, runs),
        summit: area_progress(blocks, "Celeste/7-Summit"@, runs),
        core: area_progress(blocks, "Celeste/9-Core"@, runs),
        farewell: area_progress(blocks, "Celeste/LostLevels"@, runs),
    }
}

/// The summary of a document with these events. Of the texts under
/// `TotalStrawberries` the first counts; of the others the last.
pub open spec fn summary_of(events: Seq<EventView>) -> SummaryView {
    SummaryView {
        version: last_text(texts_under(events, "Version"@)),
        player_name: last_text(texts_under(events, "Name"@)),
        cheat_mode: last_flag(texts_under(events, "CheatMode"@)),
        assist_mode: last_flag(texts_under(events, "AssistMode"@)),
        variant_mode: last_flag(texts_under(events, "VariantMode"@)),
        strawberries: first_count(texts_under(events, "TotalStrawberries"@)),
        golden_strawberries: last_count(texts_under(events, "TotalGoldenStrawberries"@)),
        deaths: last_count(texts_under(events, "TotalDeaths"@)),
        jumps: last_count(texts_under(events, "TotalJumps"@)),
        dashes: last_count(texts_under(events, "TotalDashes"@)),
        wall_jumps: last_count(texts_under(events, "TotalWallJumps"@)),
        celeste: game_of(mode_blocks(events)),
    }
}

} // verus!
