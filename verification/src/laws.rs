//! What holds of every summary.

use vstd::prelude::*;
use crate::event::EventView;
use crate::model::{
    area_progress, current_element, game_of, mode_blocks, open_run, run_of_three, summary_of,
    texts_under, ModeBlock,
};
use crate::steps::lemma_run_extended;
use crate::progress::{AreaData, Celeste, SummaryView};
use crate::text::count_value;

verus! {

/// Whether an event opens an element called `name`.
pub open spec fn opens(event: EventView, name: Seq<char>) -> bool {
    event matches EventView::Start { name: opened, .. } && opened == name
}

/// The name that text is read under is that of an element the document
/// opens, or no name at all.
pub proof fn lemma_current_element_was_opened(events: Seq<EventView>)
    ensures
        current_element(events).len() > 0 ==> exists|i: int|
            0 <= i < events.len() && opens(#[trigger] events[i], current_element(events)),
    decreases events.len(),
{
    if events.len() > 0 {
        let before = events.drop_last();
        match events.last() {
            EventView::Start { name, .. } => {
                assert(opens(events[events.len() - 1], name));
            },
            EventView::End => {},
            _ => {
                lemma_current_element_was_opened(before);
                if current_element(before).len() > 0 {
                    let i = choose|i: int|
                        0 <= i < before.len() && opens(
                            #[trigger] before[i],
                            current_element(before),
                        );
                    assert(opens(events[i], current_element(events)));
                }
            },
        }
    }
}

/// Where a document opens no element called `name`, no text stands under
/// that name.
pub proof fn lemma_missing_element_has_no_text(events: Seq<EventView>, name: Seq<char>)
    requires
        name.len() > 0,
        forall|i: int| 0 <= i < events.len() ==> !opens(#[trigger] events[i], name),
    ensures
        texts_under(events, name).len() == 0,
    decreases events.len(),
{
    if events.len() > 0 {
        let before = events.drop_last();
        assert forall|i: int| 0 <= i < before.len() implies !opens(#[trigger] before[i], name) by {
            assert(before[i] == events[i]);
        }
        lemma_missing_element_has_no_text(before, name);
        lemma_current_element_was_opened(before);
        if current_element(before) == name {
            let i = choose|i: int| 0 <= i < before.len() && opens(#[trigger] before[i], name);
            assert(before[i] == events[i]);
        }
    }
}

/// A field under whose name no text stands, be the element missing or
/// empty, has its default: the empty text, 0, or false.
pub proof fn lemma_unread_fields_default(events: Seq<EventView>)
    ensures
        texts_under(events, "Version"@).len() == 0 ==> summary_of(events).version == Seq::<
            char,
        >::empty(),
        texts_under(events, "Name"@).len() == 0 ==> summary_of(events).player_name == Seq::<
            char,
        >::empty(),
        texts_under(events, "CheatMode"@).len() == 0 ==> !summary_of(events).cheat_mode,
        texts_under(events, "AssistMode"@).len() == 0 ==> !summary_of(events).assist_mode,
        texts_under(events, "VariantMode"@).len() == 0 ==> !summary_of(events).variant_mode,
        texts_under(events, "TotalStrawberries"@).len() == 0 ==> summary_of(events).strawberries
            == 0,
        texts_under(events, "TotalGoldenStrawberries"@).len() == 0 ==> summary_of(
            events,
        ).golden_strawberries == 0,
        texts_under(events, "TotalDeaths"@).len() == 0 ==> summary_of(events).deaths == 0,
        texts_under(events, "TotalJumps"@).len() == 0 ==> summary_of(events).jumps == 0,
        texts_under(events, "TotalDashes"@).len() == 0 ==> summary_of(events).dashes == 0,
        texts_under(events, "TotalWallJumps"@).len() == 0 ==> summary_of(events).wall_jumps == 0,
{
}

/// The texts under a name stay where they are when the document goes on.
pub proof fn lemma_texts_keep_their_place(
    events: Seq<EventView>,
    more: Seq<EventView>,
    name: Seq<char>,
)
    ensures
        texts_under(events, name).len() <= texts_under(events + more, name).len(),
        forall|i: int|
            0 <= i < texts_under(events, name).len() ==> texts_under(events + more, name)[i]
                == #[trigger] texts_under(events, name)[i],
    decreases more.len(),
{
    if more.len() == 0 {
        assert(events + more =~= events);
    } else {
        assert((events + more).drop_last() =~= events + more.drop_last());
        lemma_texts_keep_their_place(events, more.drop_last(), name);
    }
}

/// The total of strawberries is that of the first text under
/// `TotalStrawberries`: once one has been read, whatever follows in the
/// document leaves the total as it is.
pub proof fn lemma_first_strawberries_count(events: Seq<EventView>, more: Seq<EventView>)
    requires
        texts_under(events, "TotalStrawberries"@).len() > 0,
    ensures
        summary_of(events).strawberries == count_value(
            texts_under(events, "TotalStrawberries"@)[0],
        ),
        summary_of(events + more).strawberries == summary_of(events).strawberries,
{
    lemma_texts_keep_their_place(events, more, "TotalStrawberries"@);
}

/// In the run under assembly every mode block since the last complete run of
/// three stands in the slot of its position, and the slots after them are
/// empty.
pub proof fn lemma_open_run_keeps_positions(blocks: Seq<ModeBlock>)
    ensures
        ({
            let filled = blocks.len() % 3;
            let sides = open_run(blocks).sides();
            &&& forall|slot: int|
                0 <= slot < filled ==> #[trigger] sides[slot] == blocks[blocks.len() - filled
                    + slot].side
            &&& forall|slot: int| filled <= slot < 3 ==> #[trigger] sides[slot] == AreaData::empty()
        }),
{
}

/// The last complete run of three is kept under the area that its third
/// block stands in, its blocks as the sides A, B and C in their order.
pub proof fn lemma_last_run_is_kept(blocks: Seq<ModeBlock>)
    requires
        blocks.len() >= 3,
        blocks.len() % 3 == 0,
    ensures
        area_progress(blocks, blocks.last().area, blocks.len() / 3).sides() == seq![
            blocks[blocks.len() - 3].side,
            blocks[blocks.len() - 2].side,
            blocks[blocks.len() - 1].side,
        ],
{
    let runs = blocks.len() / 3;
    assert(3 * runs == blocks.len());
    assert(run_of_three(blocks, runs - 1).sides() =~= seq![
        blocks[blocks.len() - 3].side,
        blocks[blocks.len() - 2].side,
        blocks[blocks.len() - 1].side,
    ]);
}

/// Where the golden strawberries are among the strawberries counted, those
/// that are not golden are not fewer than none.
pub proof fn lemma_plain_strawberries_not_negative(summary: SummaryView)
    requires
        summary.golden_strawberries <= summary.strawberries,
    ensures
        summary.plain_strawberries() >= 0,
{
}

/// One or two mode blocks that follow complete runs of three wait: they leave
/// the game as it was, stand in the run under assembly each in the slot of
/// its position, and leave the slots after them empty.
pub proof fn lemma_short_run_waits(blocks: Seq<ModeBlock>, more: Seq<ModeBlock>)
    requires
        blocks.len() % 3 == 0,
        1 <= more.len() <= 2,
    ensures
        game_of(blocks + more) == game_of(blocks),
        forall|slot: int|
            0 <= slot < more.len() ==> #[trigger] open_run(blocks + more).sides()[slot]
                == more[slot].side,
        forall|slot: int|
            more.len() <= slot < 3 ==> #[trigger] open_run(blocks + more).sides()[slot]
                == AreaData::empty(),
{
    let one = blocks.push(more[0]);
    lemma_run_extended(blocks, more[0]);
    if more.len() == 1 {
        assert(blocks + more =~= one);
    } else {
        lemma_run_extended(one, more[1]);
        assert(blocks + more =~= one.push(more[1]));
    }
}

/// A document with fewer than three mode blocks completes no run: every area
/// of its summary is empty.
pub proof fn lemma_incomplete_run_keeps_nothing(events: Seq<EventView>)
    requires
        mode_blocks(events).len() < 3,
    ensures
        summary_of(events).celeste == Celeste::empty(),
{
    assert(mode_blocks(events).len() / 3 == 0);
}

} // verus!
