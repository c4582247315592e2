use celeste_saves::event::{Attribute, Name};
use celeste_saves::fields::{apply_text, last_attribute, read_side, store};
use celeste_saves::{AreaData, AreaMode, Celeste, Summary};

fn attribute(name: &str, value: &str) -> Attribute {
    Attribute { name: Name::local(name), value: value.to_string() }
}

#[test]
fn last_attribute_finds_the_last_of_a_name() {
    let attributes =
        vec![attribute("Deaths", "1"), attribute("SID", "x"), attribute("Deaths", "2")];
    assert_eq!(last_attribute(&attributes, "Deaths"), Some("2"));
    assert_eq!(last_attribute(&attributes, "SID"), Some("x"));
    assert_eq!(last_attribute(&attributes, "deaths"), None);
    assert_eq!(last_attribute(&vec![], "Deaths"), None);
}

#[test]
fn read_side_reads_the_four_attributes() {
    let attributes = vec![
        attribute("TotalStrawberries", "20"),
        attribute("Completed", "true"),
        attribute("SingleRunCompleted", "true"),
        attribute("Deaths", "143"),
        attribute("HeartGem", "false"),
    ];
    let side = read_side(&attributes);
    assert_eq!(side, AreaData { strawberries: 20, deaths: 143, heart_gem: true, completed: true });
    assert_eq!(read_side(&vec![]), AreaData::default());
    let side = read_side(&vec![attribute("HeartGem", "true"), attribute("Completed", "false")]);
    assert_eq!(side, AreaData::default());
}

#[test]
fn store_puts_a_run_in_its_place() {
    let mut run = AreaMode::default();
    run.b_side.deaths = 9;
    let mut game = Celeste::default();
    store(&mut game, "Celeste/LostLevels", run);
    assert_eq!(game, Celeste { farewell: run, ..Celeste::default() });
    store(&mut game, "Celeste/0-Intro", run);
    assert_eq!(game, Celeste { farewell: run, prologue: run, ..Celeste::default() });
    store(&mut game, "Celeste/LostLevels", AreaMode::default());
    assert_eq!(game, Celeste { prologue: run, ..Celeste::default() });
    store(&mut game, "Celeste/8-Epilogue", run);
    store(&mut game, "", run);
    assert_eq!(game, Celeste { prologue: run, ..Celeste::default() });
}

#[test]
fn apply_text_writes_one_field() {
    let mut summary = Summary::default();
    let seven = "7".to_string();
    let names = [
        "TotalGoldenStrawberries",
        "TotalDeaths",
        "TotalJumps",
        "TotalWallJumps",
        "TotalDashes",
    ];
    for name in names {
        assert!(!apply_text(&mut summary, name, &seven, false));
        assert!(apply_text(&mut summary, name, &seven, true));
    }
    let expected = Summary {
        golden_strawberries: 7,
        deaths: 7,
        jumps: 7,
        wall_jumps: 7,
        dashes: 7,
        ..Summary::default()
    };
    assert_eq!(summary, expected);
    assert!(!apply_text(&mut summary, "Strawberries", &seven, false));
    assert!(!apply_text(&mut summary, "", &seven, false));
    assert_eq!(summary, expected);
}

#[test]
fn apply_text_writes_the_total_once() {
    let mut summary = Summary::default();
    assert!(apply_text(&mut summary, "TotalStrawberries", &"12".to_string(), false));
    assert_eq!(summary.strawberries, 12);
    assert!(apply_text(&mut summary, "TotalStrawberries", &"13".to_string(), true));
    assert_eq!(summary.strawberries, 12);
}

#[test]
fn apply_text_writes_names_and_flags() {
    let mut summary = Summary::default();
    apply_text(&mut summary, "Version", &"1.4.0.0".to_string(), false);
    apply_text(&mut summary, "Name", &"Madeline".to_string(), false);
    apply_text(&mut summary, "CheatMode", &"true".to_string(), false);
    apply_text(&mut summary, "AssistMode", &"yes".to_string(), false);
    apply_text(&mut summary, "VariantMode", &"false".to_string(), false);
    let expected = Summary {
        version: "1.4.0.0".to_string(),
        player_name: "Madeline".to_string(),
        cheat_mode: true,
        assist_mode: true,
        ..Summary::default()
    };
    assert_eq!(summary, expected);
}
