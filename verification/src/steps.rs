//! What one more event does to the summary of a document.

use vstd::prelude::*;
use crate::event::{AttributeView, EventView};
use crate::model::{
    area_progress, attribute_value, current_area, current_element, game_of, mode_blocks,
    open_run, run_of_three, side_of, summary_of, texts_under, ModeBlock,
};
use crate::progress::{AreaData, AreaMode, Celeste, SummaryView};
use crate::text::count_value;

verus! {

/// A game with `progress` put in the place of the area called `area`. A name
/// that is none of the ten leaves the game as it was.
pub open spec fn stored(game: Celeste, area: Seq<char>, progress: AreaMode) -> Celeste {
    if area == "Celeste/0-Intro"@ {
        Celeste { prologue: progress, ..game }
    } else if area == "Celeste/1-ForsakenCity"@ {
        Celeste { city: progress, ..game }
    } else if area == "Celeste/2-OldSite"@ {
        Celeste { site: progress, ..game }
    } else if area == "Celeste/3-CelestialResort"@ {
        Celeste { resort: progress, ..game }
    } else if area == "Celeste/4-GoldenRidge"@ {
        Celeste { ridge: progress, ..game }
    } else if area == "Celeste/5-MirrorTemple"@ {
        Celeste { temple: progress, ..game }
    } else if area == "Celeste/6-Reflection"@ {
        Celeste { reflection: progress, ..game }
    } else if area == "Celeste/7-Summit"@ {
        Celeste { summit: progress, ..game }
    } else if area == "Celeste/9-Core"@ {
        Celeste { core: progress, ..game }
    } else if area == "Celeste/LostLevels"@ {
        Celeste { farewell: progress, ..game }
    } else {
        game
    }
}

/// What the first runs of three leave under an area does not depend on the
/// blocks that follow them.
pub proof fn lemma_area_progress_push(
    blocks: Seq<ModeBlock>,
    block: ModeBlock,
    area: Seq<char>,
    runs: nat,
)
    requires
        3 * runs <= blocks.len(),
    ensures
        area_progress(blocks.push(block), area, runs) == area_progress(blocks, area, runs),
    decreases runs,
{
    if runs > 0 {
        lemma_area_progress_push(blocks, block, area, (runs - 1) as nat);
    }
}

/// A mode block that does not complete a run of three leaves the game as it
/// was.
pub proof fn lemma_run_extended(blocks: Seq<ModeBlock>, block: ModeBlock)
    requires
        blocks.len() % 3 != 2,
    ensures
        game_of(blocks.push(block)) == game_of(blocks),
{
    let runs = blocks.len() / 3;
    assert(blocks.push(block).len() / 3 == runs);
    lemma_area_progress_push(blocks, block, "Celeste/0-Intro"@, runs);
    lemma_area_progress_push(blocks, block, "Celeste/1-ForsakenCity"@, runs);
    lemma_area_progress_push(blocks, block, "Celeste/2-OldSite"@, runs);
    lemma_area_progress_push(blocks, block, "Celeste/3-CelestialResort"@, runs);
    lemma_area_progress_push(blocks, block, "Celeste/4-GoldenRidge"@, runs);
    lemma_area_progress_push(blocks, block, "Celeste/5-MirrorTemple"@, runs);
    lemma_area_progress_push(blocks, block, "Celeste/6-Reflection"@, runs);
    lemma_area_progress_push(blocks, block, "Celeste/7-Summit"@, runs);
    lemma_area_progress_push(blocks, block, "Celeste/9-Core"@, runs);
    lemma_area_progress_push(blocks, block, "Celeste/LostLevels"@, runs);
}

/// Spells out the character by which each of the ten area names differs
/// from the others.
proof fn lemma_area_names_differ()
    ensures
        "Celeste/1-ForsakenCity"@[8] == '1',
        "Celeste/2-OldSite"@[8] == '2',
        "Celeste/3-CelestialResort"@[8] == '3',
        "Celeste/4-GoldenRidge"@[8] == '4',
        "Celeste/5-MirrorTemple"@[8] == '5',
        "Celeste/6-Reflection"@[8] == '6',
        "Celeste/7-Summit"@[8] == '7',
        "Celeste/9-Core"@[8] == '9',
        "Celeste/LostLevels"@[8] == 'L',
        "Celeste/0-Intro"@[8] == '0',
{
    reveal_strlit("Celeste/0-Intro");
    reveal_strlit("Celeste/1-ForsakenCity");
    reveal_strlit("Celeste/2-OldSite");
    reveal_strlit("Celeste/3-CelestialResort");
    reveal_strlit("Celeste/4-GoldenRidge");
    reveal_strlit("Celeste/5-MirrorTemple");
    reveal_strlit("Celeste/6-Reflection");
    reveal_strlit("Celeste/7-Summit");
    reveal_strlit("Celeste/9-Core");
    reveal_strlit("Celeste/LostLevels");
}

/// A mode block that completes a run of three puts the run in the place of
/// the area that the block stands in.
pub proof fn lemma_run_completed(blocks: Seq<ModeBlock>, block: ModeBlock)
    requires
        blocks.len() % 3 == 2,
    ensures
        game_of(blocks.push(block)) == stored(
            game_of(blocks),
            block.area,
            AreaMode {
                a_side: blocks[blocks.len() - 2].side,
                b_side: blocks[blocks.len() - 1].side,
                c_side: block.side,
            },
        ),
{
    let runs = blocks.len() / 3;
    let after = blocks.push(block);
    assert(after.len() / 3 == runs + 1);
    assert(after[3 * (runs + 1) - 1] == block);
    assert(run_of_three(after, runs as int) == AreaMode {
        a_side: blocks[blocks.len() - 2].side,
        b_side: blocks[blocks.len() - 1].side,
        c_side: block.side,
    });
    lemma_area_names_differ();
    lemma_area_progress_push(blocks, block, "Celeste/0-Intro"@, runs);
    lemma_area_progress_push(blocks, block, "Celeste/1-ForsakenCity"@, runs);
    lemma_area_progress_push(blocks, block, "Celeste/2-OldSite"@, runs);
    lemma_area_progress_push(blocks, block, "Celeste/3-CelestialResort"@, runs);
    lemma_area_progress_push(blocks, block, "Celeste/4-GoldenRidge"@, runs);
    lemma_area_progress_push(blocks, block, "Celeste/5-MirrorTemple"@, runs);
    lemma_area_progress_push(blocks, block, "Celeste/6-Reflection"@, runs);
    lemma_area_progress_push(blocks, block, "Celeste/7-Summit"@, runs);
    lemma_area_progress_push(blocks, block, "Celeste/9-Core"@, runs);
    lemma_area_progress_push(blocks, block, "Celeste/LostLevels"@, runs);
}

/// What one more event adds to the texts under `name`.
proof fn lemma_texts_push(before: Seq<EventView>, event: EventView, name: Seq<char>)
    ensures
        texts_under(before.push(event), name) == match event {
            EventView::Text(text) => if current_element(before) == name {
                texts_under(before, name).push(text)
            } else {
                texts_under(before, name)
            },
            _ => texts_under(before, name),
        },
{
    assert(before.push(event).drop_last() =~= before);
}

/// An event other than text leaves every text-borne field of the summary as
/// it was.
proof fn lemma_summary_keeps_texts(before: Seq<EventView>, event: EventView)
    requires
        !(event is Text),
    ensures
        summary_of(before.push(event)) == (SummaryView {
            celeste: game_of(mode_blocks(before.push(event))),
            ..summary_of(before)
        }),
        texts_under(before.push(event), "TotalStrawberries"@) == texts_under(
            before,
            "TotalStrawberries"@,
        ),
{
    lemma_texts_push(before, event, "Version"@);
    lemma_texts_push(before, event, "Name"@);
    lemma_texts_push(before, event, "CheatMode"@);
    lemma_texts_push(before, event, "AssistMode"@);
    lemma_texts_push(before, event, "VariantMode"@);
    lemma_texts_push(before, event, "TotalStrawberries"@);
    lemma_texts_push(before, event, "TotalGoldenStrawberries"@);
    lemma_texts_push(before, event, "TotalDeaths"@);
    lemma_texts_push(before, event, "TotalJumps"@);
    lemma_texts_push(before, event, "TotalDashes"@);
    lemma_texts_push(before, event, "TotalWallJumps"@);
}

/// What an opening tag changes.
proof fn lemma_open_element(before: Seq<EventView>, name: Seq<char>, attributes: Seq<AttributeView>)
    ensures
        ({
            let after = before.push(EventView::Start { name, attributes });
            &&& current_element(after) == name
            &&& current_area(after) == if name == "AreaStats"@ {
                match attribute_value(attributes, "SID"@) {
                    Some(area) => area,
                    None => current_area(before),
                }
            } else {
                current_area(before)
            }
            &&& mode_blocks(after) == if name == "AreaModeStats"@ {
                mode_blocks(before).push(
                    ModeBlock { area: current_area(before), side: side_of(attributes) },
                )
            } else {
                mode_blocks(before)
            }
            &&& name == "AreaStats"@ ==> name != "AreaModeStats"@
        }),
{
    let after = before.push(EventView::Start { name, attributes });
    assert(after.drop_last() =~= before);
    assert(after.last() == EventView::Start { name, attributes });
    reveal_strlit("AreaStats");
    reveal_strlit("AreaModeStats");
    assert("AreaStats"@.len() != "AreaModeStats"@.len());
}

/// An event that is no opening tag leaves the area and the mode blocks as
/// they were; where it is no closing tag either, the current element too.
proof fn lemma_keeps_blocks(before: Seq<EventView>, event: EventView)
    requires
        !(event is Start),
    ensures
        current_area(before.push(event)) == current_area(before),
        mode_blocks(before.push(event)) == mode_blocks(before),
        current_element(before.push(event)) == if event is End {
            Seq::<char>::empty()
        } else {
            current_element(before)
        },
{
    assert(before.push(event).drop_last() =~= before);
}

/// What one more mode block makes of the run under assembly.
proof fn lemma_open_run_push(blocks: Seq<ModeBlock>, block: ModeBlock)
    ensures
        blocks.push(block).len() % 3 == (blocks.len() % 3 + 1) % 3,
        open_run(blocks.push(block)) == if blocks.len() % 3 == 0 {
            AreaMode { a_side: block.side, b_side: AreaData::empty(), c_side: AreaData::empty() }
        } else if blocks.len() % 3 == 1 {
            AreaMode {
                a_side: open_run(blocks).a_side,
                b_side: block.side,
                c_side: AreaData::empty(),
            }
        } else {
            AreaMode::empty()
        },
        blocks.len() % 3 == 2 ==> open_run(blocks).a_side == blocks[blocks.len() - 2].side
            && open_run(blocks).b_side == blocks[blocks.len() - 1].side,
{
}

/// The summary after a text that stands under `element`, given the summary
/// before it and whether a text under `TotalStrawberries` was read before.
pub open spec fn with_text(
    summary: SummaryView,
    element: Seq<char>,
    text: Seq<char>,
    strawberries_read: bool,
) -> SummaryView {
    if element == "Version"@ {
        SummaryView { version: text, ..summary }
    } else if element == "Name"@ {
        SummaryView { player_name: text, ..summary }
    } else if element == "AssistMode"@ {
        SummaryView { assist_mode: text != "false"@, ..summary }
    } else if element == "CheatMode"@ {
        SummaryView { cheat_mode: text != "false"@, ..summary }
    } else if element == "VariantMode"@ {
        SummaryView { variant_mode: text != "false"@, ..summary }
    } else if element == "TotalStrawberries"@ {
        if strawberries_read {
            summary
        } else {
            SummaryView { strawberries: count_value(text), ..summary }
        }
    } else if element == "TotalGoldenStrawberries"@ {
        SummaryView { golden_strawberries: count_value(text), ..summary }
    } else if element == "TotalDeaths"@ {
        SummaryView { deaths: count_value(text), ..summary }
    } else if element == "TotalJumps"@ {
        SummaryView { jumps: count_value(text), ..summary }
    } else if element == "TotalWallJumps"@ {
        SummaryView { wall_jumps: count_value(text), ..summary }
    } else if element == "TotalDashes"@ {
        SummaryView { dashes: count_value(text), ..summary }
    } else {
        summary
    }
}

/// Spells out enough of the names of the elements that the summary reads to
/// tell each from the others.
pub proof fn lemma_scalar_names_differ()
    ensures
        "Version"@.len() == 7,
        "Name"@.len() == 4,
        "AssistMode"@.len() == 10 && "AssistMode"@[0] == 'A',
        "CheatMode"@.len() == 9,
        "VariantMode"@.len() == 11 && "VariantMode"@[0] == 'V',
        "TotalStrawberries"@.len() == 17,
        "TotalGoldenStrawberries"@.len() == 23,
        "TotalDeaths"@.len() == 11 && "TotalDeaths"@[0] == 'T' && "TotalDeaths"@[6] == 'e',
        "TotalJumps"@.len() == 10 && "TotalJumps"@[0] == 'T',
        "TotalWallJumps"@.len() == 14,
        "TotalDashes"@.len() == 11 && "TotalDashes"@[0] == 'T' && "TotalDashes"@[6] == 'a',
{
    reveal_strlit("Version");
    reveal_strlit("Name");
    reveal_strlit("AssistMode");
    reveal_strlit("CheatMode");
    reveal_strlit("VariantMode");
    reveal_strlit("TotalStrawberries");
    reveal_strlit("TotalGoldenStrawberries");
    reveal_strlit("TotalDeaths");
    reveal_strlit("TotalJumps");
    reveal_strlit("TotalWallJumps");
    reveal_strlit("TotalDashes");
}

/// What a text changes in the summary.
proof fn lemma_read_text(before: Seq<EventView>, text: Seq<char>)
    ensures
        summary_of(before.push(EventView::Text(text))) == with_text(
            summary_of(before),
            current_element(before),
            text,
            texts_under(before, "TotalStrawberries"@).len() > 0,
        ),
        texts_under(before.push(EventView::Text(text)), "TotalStrawberries"@).len() > 0 <==> (
        texts_under(before, "TotalStrawberries"@).len() > 0 || current_element(before)
            == "TotalStrawberries"@),
{
    let event = EventView::Text(text);
    lemma_keeps_blocks(before, event);
    lemma_scalar_names_differ();
    lemma_texts_push(before, event, "Version"@);
    lemma_texts_push(before, event, "Name"@);
    lemma_texts_push(before, event, "CheatMode"@);
    lemma_texts_push(before, event, "AssistMode"@);
    lemma_texts_push(before, event, "VariantMode"@);
    lemma_texts_push(before, event, "TotalStrawberries"@);
    lemma_texts_push(before, event, "TotalGoldenStrawberries"@);
    lemma_texts_push(before, event, "TotalDeaths"@);
    lemma_texts_push(before, event, "TotalJumps"@);
    lemma_texts_push(before, event, "TotalDashes"@);
    lemma_texts_push(before, event, "TotalWallJumps"@);
}

/// The state of a walk through a document, between two events.
pub struct Walk {
    /// The summary as far as it is known.
    pub summary: SummaryView,
    /// Whether a text under `TotalStrawberries` has been read.
    pub strawberries_read: bool,
    /// The name that text is read under.
    pub element: Seq<char>,
    /// The area that mode blocks stand in.
    pub area: Seq<char>,
    /// How many slots of the run under assembly are filled: 0, 1 or 2.
    pub filled: int,
    /// The first slot of the run under assembly.
    pub first: AreaData,
    /// Its second slot.
    pub second: AreaData,
}

impl Walk {
    /// The state before the first event.
    pub open spec fn start() -> Walk {
        Walk {
            summary: SummaryView::empty(),
            strawberries_read: false,
            element: Seq::empty(),
            area: Seq::empty(),
            filled: 0,
            first: AreaData::empty(),
            second: AreaData::empty(),
        }
    }

    /// The run under assembly.
    pub open spec fn pending(self) -> AreaMode {
        AreaMode { a_side: self.first, b_side: self.second, c_side: AreaData::empty() }
    }

    /// The state after one more mode block: the block fills the next slot,
    /// and the third of a run puts the run in the place of the current area.
    pub open spec fn with_block(self, side: AreaData) -> Walk {
        if self.filled == 0 {
            Walk { first: side, filled: 1, ..self }
        } else if self.filled == 1 {
            Walk { second: side, filled: 2, ..self }
        } else {
            Walk {
                summary: SummaryView {
                    celeste: stored(
                        self.summary.celeste,
                        self.area,
                        AreaMode { a_side: self.first, b_side: self.second, c_side: side },
                    ),
                    ..self.summary
                },
                first: AreaData::empty(),
                second: AreaData::empty(),
                filled: 0,
                ..self
            }
        }
    }

    /// The state after an opening tag.
    pub open spec fn opened(self, name: Seq<char>, attributes: Seq<AttributeView>) -> Walk {
        let named = Walk { element: name, ..self };
        if name == "AreaStats"@ {
            match attribute_value(attributes, "SID"@) {
                Some(area) => Walk { area, ..named },
                None => named,
            }
        } else if name == "AreaModeStats"@ {
            named.with_block(side_of(attributes))
        } else {
            named
        }
    }

    /// The state after a closing tag.
    pub open spec fn ended(self) -> Walk {
        Walk { element: Seq::empty(), ..self }
    }

    /// The state after a text.
    pub open spec fn read(self, text: Seq<char>) -> Walk {
        Walk {
            summary: with_text(self.summary, self.element, text, self.strawberries_read),
            strawberries_read: self.strawberries_read || self.element == "TotalStrawberries"@,
            ..self
        }
    }

    /// The state after one more event.
    pub open spec fn after(self, event: EventView) -> Walk {
        match event {
            EventView::Start { name, attributes } => self.opened(name, attributes),
            EventView::End => self.ended(),
            EventView::Text(text) => self.read(text),
            _ => self,
        }
    }

    /// Whether the state is that of a walk over `events`.
    #[verifier::opaque]
    pub open spec fn agrees(self, events: Seq<EventView>) -> bool {
        let blocks = mode_blocks(events);
        &&& self.summary == summary_of(events)
        &&& self.strawberries_read == (texts_under(events, "TotalStrawberries"@).len() > 0)
        &&& self.element == current_element(events)
        &&& self.area == current_area(events)
        &&& self.filled == blocks.len() % 3
        &&& self.pending() == open_run(blocks)
    }
}

/// The state before the first event is that of a walk over no events.
pub proof fn lemma_start_agrees()
    ensures
        Walk::start().agrees(Seq::empty()),
{
    reveal(Walk::agrees);
}

/// A state that agrees with the events of a walk holds their summary, and
/// the run that they leave under assembly.
pub proof fn lemma_agreement(walk: Walk, events: Seq<EventView>)
    requires
        walk.agrees(events),
    ensures
        walk.summary == summary_of(events),
        0 <= walk.filled < 3,
        walk.pending() == open_run(mode_blocks(events)),
{
    reveal(Walk::agrees);
}

/// Taking an opening tag keeps the state in step with the events.
proof fn lemma_opened_agrees(
    walk: Walk,
    events: Seq<EventView>,
    name: Seq<char>,
    attributes: Seq<AttributeView>,
)
    requires
        walk.agrees(events),
    ensures
        walk.opened(name, attributes).agrees(events.push(EventView::Start { name, attributes })),
{
    reveal(Walk::agrees);
    let event = EventView::Start { name, attributes };
    let blocks = mode_blocks(events);
    let block = ModeBlock { area: current_area(events), side: side_of(attributes) };
    lemma_open_element(events, name, attributes);
    lemma_summary_keeps_texts(events, event);
    if name == "AreaModeStats"@ {
        lemma_open_run_push(blocks, block);
        if walk.filled == 2 {
            lemma_run_completed(blocks, block);
        } else {
            lemma_run_extended(blocks, block);
        }
    }
}

/// Taking an event keeps the state in step with the events.
pub proof fn lemma_step_agrees(walk: Walk, events: Seq<EventView>, event: EventView)
    requires
        walk.agrees(events),
    ensures
        walk.after(event).agrees(events.push(event)),
{
    match event {
        EventView::Start { name, attributes } => {
            lemma_opened_agrees(walk, events, name, attributes);
        },
        EventView::Text(text) => {
            reveal(Walk::agrees);
            lemma_keeps_blocks(events, event);
            lemma_read_text(events, text);
        },
        _ => {
            reveal(Walk::agrees);
            lemma_keeps_blocks(events, event);
            lemma_summary_keeps_texts(events, event);
        },
    }
}

} // verus!
