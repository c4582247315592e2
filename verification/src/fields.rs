//! Reading single values: an attribute of a tag, the side that a mode block
//! describes, a text into its field, a run of three into its area.

use vstd::prelude::*;
use vstd::string::*;
use crate::event::{attribute_views, Attribute};
use crate::model::{attribute_value, side_of};
use crate::progress::{AreaData, AreaMode, Celeste, Summary};
use crate::steps::{lemma_scalar_names_differ, stored, with_text};
use crate::text::{parse_count, same_text};

verus! {

/// The value of the last attribute called `name`, if there is one.
pub fn last_attribute<'a>(attributes: &'a Vec<Attribute>, name: &str) -> (found: Option<&'a str>)
    ensures
        match found {
            Some(value) => attribute_value(attribute_views(attributes@), name@) == Some(value@),
            None => attribute_value(attribute_views(attributes@), name@) is None,
        },
{
    let ghost all = attribute_views(attributes@);
    let mut i: usize = attributes.len();
    assert(all.take(i as int) =~= all);
    while i > 0
        invariant
            i <= attributes.len(),
            all == attribute_views(attributes@),
            attribute_value(all, name@) == attribute_value(all.take(i as int), name@),
        decreases i,
    {
        let attribute = &attributes[i - 1];
        assert(all.take(i as int).last() == attribute@);
        if attribute.name.reads(name) {
            return Some(attribute.value.as_str());
        }
        assert(all.take(i as int).drop_last() =~= all.take(i - 1));
        i -= 1;
    }
    None
}

/// The side that the attributes of one mode block describe.
pub fn read_side(attributes: &Vec<Attribute>) -> (side: AreaData)
    ensures
        side == side_of(attribute_views(attributes@)),
{
    let strawberries = match last_attribute(attributes, "TotalStrawberries") {
        Some(value) => parse_count(value),
        None => 0,
    };
    let deaths = match last_attribute(attributes, "Deaths") {
        Some(value) => parse_count(value),
        None => 0,
    };
    let heart_gem = match last_attribute(attributes, "HeartGem") {
        Some(value) => same_text(value, "false"),
        None => false,
    };
    let completed = match last_attribute(attributes, "Completed") {
        Some(value) => same_text(value, "true"),
        None => false,
    };
    AreaData { strawberries, deaths, heart_gem, completed }
}

/// Puts `progress` in the place of the area called `area`, if it is one of
/// the ten.
pub fn store(game: &mut Celeste, area: &str, progress: AreaMode)
    ensures
        *final(game) == stored(*old(game), area@, progress),
{
    if same_text(area, "Celeste/0-Intro") {
        game.prologue = progress;
    } else if same_text(area, "Celeste/1-ForsakenCity") {
        game.city = progress;
    } else if same_text(area, "Celeste/2-OldSite") {
        game.site = progress;
    } else if same_text(area, "Celeste/3-CelestialResort") {
        game.resort = progress;
    } else if same_text(area, "Celeste/4-GoldenRidge") {
        game.ridge = progress;
    } else if same_text(area, "Celeste/5-MirrorTemple") {
        game.temple = progress;
    } else if same_text(area, "Celeste/6-Reflection") {
        game.reflection = progress;
    } else if same_text(area, "Celeste/7-Summit") {
        game.summit = progress;
    } else if same_text(area, "Celeste/9-Core") {
        game.core = progress;
    } else if same_text(area, "Celeste/LostLevels") {
        game.farewell = progress;
    }
}

/// Writes a text that stands under `element` into the summary. Tells whether
/// a text under `TotalStrawberries` has been read by now.
pub fn apply_text(summary: &mut Summary, element: &str, text: &String, strawberries_read: bool) -> (now_read: bool)
    ensures
        final(summary)@ == with_text(old(summary)@, element@, text@, strawberries_read),
        now_read == (strawberries_read || element@ == "TotalStrawberries"@),
{
    proof {
        lemma_scalar_names_differ();
    }
    if same_text(element, "Version") {
        summary.version = text.clone();
    } else if same_text(element, "Name") {
        summary.player_name = text.clone();
    } else if same_text(element, "AssistMode") {
        summary.assist_mode = !same_text(text.as_str(), "false");
    } else if same_text(element, "CheatMode") {
        summary.cheat_mode = !same_text(text.as_str(), "false");
    } else if same_text(element, "VariantMode") {
        summary.variant_mode = !same_text(text.as_str(), "false");
    } else if same_text(element, "TotalStrawberries") {
        if !strawberries_read {
            summary.strawberries = parse_count(text.as_str());
        }
        return true;
    } else if same_text(element, "TotalGoldenStrawberries") {
        summary.golden_strawberries = parse_count(text.as_str());
    } else if same_text(element, "TotalDeaths") {
        summary.deaths = parse_count(text.as_str());
    } else if same_text(element, "TotalJumps") {
        summary.jumps = parse_count(text.as_str());
    } else if same_text(element, "TotalWallJumps") {
        summary.wall_jumps = parse_count(text.as_str());
    } else if same_text(element, "TotalDashes") {
        summary.dashes = parse_count(text.as_str());
    }
    strawberries_read
}

} // verus!
