//! Where the game keeps its save files.
//!
//! The game writes up to three files, `0.celeste`, `1.celeste` and
//! `2.celeste`, into one directory. Under a home directory that holds the
//! game's application-support directory, that is the one; otherwise it is the
//! game's directory under the user's data directory. What exists on disk is
//! for the caller to find out: it comes in here as plain answers.

use vstd::prelude::*;
use vstd::string::*;

verus! {

/// The number of save slots.
pub const SLOTS: usize = 3;

/// The game's directory under a home directory.
pub open spec fn primary_directory_of(home: Seq<char>) -> Seq<char> {
    home + "/Library/Application Support/Celeste/Saves"@
}

/// The game's directory under a data directory.
pub open spec fn fallback_directory_of(data_home: Seq<char>) -> Seq<char> {
    data_home + "/Celeste/Saves"@
}

/// The file of a slot, with the separator before it.
pub open spec fn slot_file(slot: int) -> Seq<char> {
    if slot == 0 {
        "/0.celeste"@
    } else if slot == 1 {
        "/1.celeste"@
    } else {
        "/2.celeste"@
    }
}

/// The path of a slot's file in a directory.
pub open spec fn save_path_of(directory: Seq<char>, slot: int) -> Seq<char> {
    directory + slot_file(slot)
}

/// The characters of a text that may be missing.
pub open spec fn text_of(text: Option<&str>) -> Option<Seq<char>> {
    match text {
        Some(text) => Some(text@),
        None => None,
    }
}

/// The directory to look in: the one under the home directory where that
/// exists on disk, else the one under the data directory. Without a home
/// directory there is none, and none without a data directory to fall back
/// on.
pub open spec fn save_directory_of(
    home: Option<Seq<char>>,
    primary_exists: bool,
    data_home: Option<Seq<char>>,
) -> Option<Seq<char>> {
    match home {
        None => None,
        Some(home) => if primary_exists {
            Some(primary_directory_of(home))
        } else {
            match data_home {
                Some(data_home) => Some(fallback_directory_of(data_home)),
                None => None,
            }
        },
    }
}

/// The path of a slot's file where the file is present, and nothing where
/// it is not.
pub open spec fn path_if_present(directory: Seq<char>, slot: int, present: bool) -> Seq<
    Seq<char>,
> {
    if present {
        seq![save_path_of(directory, slot)]
    } else {
        Seq::empty()
    }
}

/// The save files found: the paths of the slots that are present in the
/// directory to look in, in the order of the slots.
pub open spec fn saves_of(
    home: Option<Seq<char>>,
    primary_exists: bool,
    data_home: Option<Seq<char>>,
    present: Seq<bool>,
) -> Seq<Seq<char>> {
    match save_directory_of(home, primary_exists, data_home) {
        Some(directory) => path_if_present(directory, 0, present[0]) + path_if_present(
            directory,
            1,
            present[1],
        ) + path_if_present(directory, 2, present[2]),
        None => Seq::empty(),
    }
}

/// The characters of each of some texts.
pub open spec fn texts_of(paths: Seq<String>) -> Seq<Seq<char>> {
    Seq::new(paths.len(), |i: int| paths[i]@)
}

/// The game's directory under a home directory.
pub fn primary_directory(home: &str) -> (directory: String)
    ensures
        directory@ == primary_directory_of(home@),
{
    String::from_str(home).concat("/Library/Application Support/Celeste/Saves")
}

/// The game's directory under a data directory.
pub fn fallback_directory(data_home: &str) -> (directory: String)
    ensures
        directory@ == fallback_directory_of(data_home@),
{
    String::from_str(data_home).concat("/Celeste/Saves")
}

/// The directory to look in, given the user's home directory, whether the
/// game's directory under it exists on disk, and the user's data directory.
pub fn save_directory(home: Option<&str>, primary_exists: bool, data_home: Option<&str>) -> (directory:
    Option<String>)
    ensures
        match directory {
            Some(directory) => save_directory_of(text_of(home), primary_exists, text_of(data_home))
                == Some(directory@),
            None => save_directory_of(text_of(home), primary_exists, text_of(data_home)) is None,
        },
{
    match home {
        None => None,
        Some(home) => {
            if primary_exists {
                Some(primary_directory(home))
            } else {
                match data_home {
                    Some(data_home) => Some(fallback_directory(data_home)),
                    None => None,
                }
            }
        },
    }
}

/// The path of a slot's file in a directory.
pub fn save_path(directory: &str, slot: usize) -> (path: String)
    requires
        slot < SLOTS,
    ensures
        path@ == save_path_of(directory@, slot as int),
{
    let file = if slot == 0 {
        "/0.celeste"
    } else if slot == 1 {
        "/1.celeste"
    } else {
        "/2.celeste"
    };
    String::from_str(directory).concat(file)
}

/// The save files found, given the user's home directory, whether the
/// game's directory under it exists on disk, the user's data directory, and
/// for each slot whether its file is present in the directory that
/// `save_directory` names for the first three.
pub fn load_saves(
    home: Option<&str>,
    primary_exists: bool,
    data_home: Option<&str>,
    present: [bool; 3],
) -> (paths: Vec<String>)
    ensures
        texts_of(paths@) == saves_of(text_of(home), primary_exists, text_of(data_home), present@),
{
    let mut paths: Vec<String> = Vec::new();
    match save_directory(home, primary_exists, data_home) {
        None => {
            assert(texts_of(paths@) =~= Seq::<Seq<char>>::empty());
        },
        Some(directory) => {
            let ghost found = Seq::<Seq<char>>::empty();
            let mut slot: usize = 0;
            while slot < SLOTS
                invariant
                    slot <= SLOTS,
                    texts_of(paths@) == found,
                    found == if slot == 0 {
                        Seq::<Seq<char>>::empty()
                    } else if slot == 1 {
                        path_if_present(directory@, 0, present@[0])
                    } else if slot == 2 {
                        path_if_present(directory@, 0, present@[0]) + path_if_present(
                            directory@,
                            1,
                            present@[1],
                        )
                    } else {
                        path_if_present(directory@, 0, present@[0]) + path_if_present(
                            directory@,
                            1,
                            present@[1],
                        ) + path_if_present(directory@, 2, present@[2])
                    },
                decreases SLOTS - slot,
            {
                if present[slot] {
                    let path = save_path(directory.as_str(), slot);
                    proof {
                        assert(texts_of(paths@.push(path)) =~= found.push(path@));
                        assert(found.push(path@) =~= found + path_if_present(
                            directory@,
                            slot as int,
                            true,
                        ));
                        found = found.push(path@);
                    }
                    paths.push(path);
                } else {
                    proof {
                        assert(found =~= found + path_if_present(directory@, slot as int, false));
                    }
                }
                slot += 1;
            }
        },
    }
    paths
}

} // verus!
