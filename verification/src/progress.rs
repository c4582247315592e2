//! The progress that a save file records.

use vstd::prelude::*;

verus! {

/// Progress on one side of an area.
#[derive(Debug, Clone, Copy, PartialEq, Eq, Structural)]
pub struct AreaData {
    pub strawberries: i32,
    pub deaths: i32,
    pub heart_gem: bool,
    pub completed: bool,
}

impl AreaData {
    /// A side on which nothing has happened yet.
    pub open spec fn empty() -> AreaData {
        AreaData { strawberries: 0, deaths: 0, heart_gem: false, completed: false }
    }
}

impl Default for AreaData {
    fn default() -> (side: AreaData)
        ensures
            side == AreaData::empty(),
    {
        AreaData { strawberries: 0, deaths: 0, heart_gem: false, completed: false }
    }
}

/// Progress on the three sides of one area.
#[derive(Debug, Clone, Copy, PartialEq, Eq, Structural)]
pub struct AreaMode {
    pub a_side: AreaData,
    pub b_side: AreaData,
    pub c_side: AreaData,
}

impl AreaMode {
    /// An area on which nothing has happened yet.
    pub open spec fn empty() -> AreaMode {
        AreaMode { a_side: AreaData::empty(), b_side: AreaData::empty(), c_side: AreaData::empty() }
    }

    /// The sides in their fixed order: A, B, C.
    pub open spec fn sides(self) -> Seq<AreaData> {
        seq![self.a_side, self.b_side, self.c_side]
    }

    /// The sides in their fixed order: A, B, C.
    pub fn side_list(&self) -> (sides: [AreaData; 3])
        ensures
            sides@ == self.sides(),
    {
        let sides = [self.a_side, self.b_side, self.c_side];
        assert(sides@ =~= self.sides());
        sides
    }
}

impl Default for AreaMode {
    fn default() -> (area: AreaMode)
        ensures
            area == AreaMode::empty(),
    {
        AreaMode {
            a_side: AreaData::default(),
            b_side: AreaData::default(),
            c_side: AreaData::default(),
        }
    }
}

/// Progress on the ten areas of the game.
#[derive(Debug, Clone, Copy, PartialEq, Eq, Structural)]
pub struct Celeste {
    pub prologue: AreaMode,
    pub city: AreaMode,
    pub site: AreaMode,
    pub resort: AreaMode,
    pub ridge: AreaMode,
    pub temple: AreaMode,
    pub reflection: AreaMode,
    pub summit: AreaMode,
    pub core: AreaMode,
    pub farewell: AreaMode,
}

impl Celeste {
    /// A game in which nothing has happened yet.
    pub open spec fn empty() -> Celeste {
        Celeste {
            prologue: AreaMode::empty(),
            city: AreaMode::empty(),
            site: AreaMode::empty(),
            resort: AreaMode::empty(),
            ridge: AreaMode::empty(),
            temple: AreaMode::empty(),
            reflection: AreaMode::empty(),
            summit: AreaMode::empty(),
            core: AreaMode::empty(),
            farewell: AreaMode::empty(),
        }
    }

    /// The areas in the order of the game's chapters.
    pub open spec fn areas(self) -> Seq<AreaMode> {
        seq![
            self.prologue,
            self.city,
            self.site,
            self.resort,
            self.ridge,
            self.temple,
            self.reflection,
            self.summit,
            self.core,
            self.farewell,
        ]
    }

    /// The areas in the order of the game's chapters.
    pub fn area_list(&self) -> (areas: [AreaMode; 10])
        ensures
            areas@ == self.areas(),
    {
        let areas = [
            self.prologue,
            self.city,
            self.site,
            self.resort,
            self.ridge,
            self.temple,
            self.reflection,
            self.summit,
            self.core,
            self.farewell,
        ];
        assert(areas@ =~= self.areas());
        areas
    }
}

impl Default for Celeste {
    fn default() -> (game: Celeste)
        ensures
            game == Celeste::empty(),
    {
        Celeste {
            prologue: AreaMode::default(),
            city: AreaMode::default(),
            site: AreaMode::default(),
            resort: AreaMode::default(),
            ridge: AreaMode::default(),
            temple: AreaMode::default(),
            reflection: AreaMode::default(),
            summit: AreaMode::default(),
            core: AreaMode::default(),
            farewell: AreaMode::default(),
        }
    }
}

/// Every game has ten areas, and every area three sides.
pub proof fn lemma_progress_shape(game: Celeste)
    ensures
        game.areas().len() == 10,
        forall|i: int| 0 <= i < 10 ==> (#[trigger] game.areas()[i]).sides().len() == 3,
{
}

/// What one save file says of a player.
#[derive(Debug, Clone, PartialEq)]
pub struct Summary {
    /// The version of the game that wrote the file.
    pub version: String,
    pub player_name: String,
    pub cheat_mode: bool,
    pub assist_mode: bool,
    pub variant_mode: bool,
    /// All strawberries, golden ones included.
    pub strawberries: i32,
    pub golden_strawberries: i32,
    pub deaths: i32,
    pub jumps: i32,
    pub dashes: i32,
    pub wall_jumps: i32,
    pub celeste: Celeste,
}

/// What a [`Summary`] holds, with its texts as sequences of characters.
pub struct SummaryView {
    pub version: Seq<char>,
    pub player_name: Seq<char>,
    pub cheat_mode: bool,
    pub assist_mode: bool,
    pub variant_mode: bool,
    pub strawberries: i32,
    pub golden_strawberries: i32,
    pub deaths: i32,
    pub jumps: i32,
    pub dashes: i32,
    pub wall_jumps: i32,
    pub celeste: Celeste,
}

impl SummaryView {
    /// The summary of a file that says nothing.
    pub open spec fn empty() -> SummaryView {
        SummaryView {
            version: Seq::empty(),
            player_name: Seq::empty(),
            cheat_mode: false,
            assist_mode: false,
            variant_mode: false,
            strawberries: 0,
            golden_strawberries: 0,
            deaths: 0,
            jumps: 0,
            dashes: 0,
            wall_jumps: 0,
            celeste: Celeste::empty(),
        }
    }

    /// The strawberries that are not golden.
    pub open spec fn plain_strawberries(self) -> int {
        self.strawberries - self.golden_strawberries
    }
}

impl View for Summary {
    type V = SummaryView;

    open spec fn view(&self) -> SummaryView {
        SummaryView {
            version: self.version@,
            player_name: self.player_name@,
            cheat_mode: self.cheat_mode,
            assist_mode: self.assist_mode,
            variant_mode: self.variant_mode,
            strawberries: self.strawberries,
            golden_strawberries: self.golden_strawberries,
            deaths: self.deaths,
            jumps: self.jumps,
            dashes: self.dashes,
            wall_jumps: self.wall_jumps,
            celeste: self.celeste,
        }
    }
}

impl Summary {
    /// The strawberries that are not golden. Where the golden ones are among
    /// the strawberries counted, this is not negative.
    pub fn plain_strawberries(&self) -> (plain: i64)
        ensures
            plain == self@.plain_strawberries(),
            self.golden_strawberries <= self.strawberries ==> plain >= 0,
    {
        self.strawberries as i64 - self.golden_strawberries as i64
    }
}

impl Default for Summary {
    fn default() -> (summary: Summary)
        ensures
            summary@ == SummaryView::empty(),
    {
        Summary {
            version: String::new(),
            player_name: String::new(),
            cheat_mode: false,
            assist_mode: false,
            variant_mode: false,
            strawberries: 0,
            golden_strawberries: 0,
            deaths: 0,
            jumps: 0,
            dashes: 0,
            wall_jumps: 0,
            celeste: Celeste::default(),
        }
    }
}

} // verus!
