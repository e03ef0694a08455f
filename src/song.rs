use vstd::prelude::*;

verus! {

/// The level of each difficulty tier of one play mode.
#[derive(Debug, Clone, Copy, PartialEq, Eq)]
pub struct IIDXDiffLevel {
    pub beginner: u8,
    pub normal: u8,
    pub hyper: u8,
    pub another: u8,
    pub legendaria: u8,
}

/// The levels of a song in single play and in double play.
#[derive(Debug, Clone, Copy, PartialEq, Eq)]
pub struct IIDXSongDiff {
    pub sp: IIDXDiffLevel,
    pub dp: IIDXDiffLevel,
}

/// Metadata of one song.
#[derive(Debug, Clone)]
pub struct IIDXSong {
    pub title: String,
    pub ascii_title: String,
    pub genre: String,
    pub artist: String,
    pub version: u16,
    pub other_folder: bool,
    pub bemani_folder: bool,
    pub splittable_diff: bool,
    pub difficulties: IIDXSongDiff,
    pub entry_id: u32,
    pub volume: u32,
}

/// A flag as the song files encode it: zero is false, anything else true.
pub fn u8_to_bool(val: u8) -> (r: bool)
    ensures
        r == (val != 0),
{
    match val {
        0 => false,
        _ => true,
    }
}

} // verus!
