//! The store: how a session gets onto the disk and back.
//!
//! The store reaches no file itself. It says, one command at a time, what is
//! to be done with the two files, and is told how each command went. The
//! session is first written in full to a temporary file, and only then put
//! in the place of the saved file, in one move. So whoever reads the saved
//! file finds the session of the last save that ran to its end, whole, and
//! never a half of the next one.
//!
//! Turning a session into text and back is not done here either. The store
//! is handed the text to write, and told what reading the saved file gave.

use vstd::prelude::*;
use vstd::string::*;
use crate::character::blank_character;
use crate::session::{new_session, GameState};
use crate::text::{done_model, reply_model};

verus! {

/// The name of the file that holds the saved session.
pub const SAVE_FILE: &'static str = "dnd_adventure_save.json";

/// What is added to the name of the saved file to name the temporary file.
pub const TEMP_SUFFIX: &'static str = ".tmp";

/// Returns the name of the temporary file.
pub fn temp_file() -> (name: String)
    ensures
        name@ == SAVE_FILE@ + TEMP_SUFFIX@,
{
    let mut name: String = String::from_str(SAVE_FILE);
    name.append(TEMP_SUFFIX);
    name
}

/// What reading the saved file gave.
#[derive(Debug)]
pub enum Found {
    /// There is no saved file.
    Missing,
    /// There is one, but it could not be read as a session.
    Unreadable { cause: String },
    /// The session that the saved file holds.
    Session(GameState),
}

/// Decides what a load returns. No saved file is no failure: it gives the
/// blank session, with both of its times read from the clock. A file that
/// could not be read as a session is a failure that carries the cause.
pub fn load_game(found: Found) -> (loaded: Result<GameState, String>)
    ensures
        match found {
            Found::Missing => loaded is Ok && loaded->Ok_0@ == new_session(
                blank_character(),
                loaded->Ok_0@.date_started,
                loaded->Ok_0@.last_saved,
            ),
            Found::Unreadable { cause } => loaded == Err::<GameState, String>(cause),
            Found::Session(state) => loaded == Ok::<GameState, String>(state),
        },
{
    match found {
        Found::Missing => Ok(GameState::default()),
        Found::Unreadable { cause } => Err(cause),
        Found::Session(state) => Ok(state),
    }
}

/// How far a save has come.
#[derive(Clone, Copy, Debug, PartialEq, Eq, Structural)]
pub enum SaveStage {
    /// The temporary file is being written.
    Writing,
    /// The temporary file is being moved into the place of the saved file.
    Replacing,
    /// The save is over, for better or worse.
    Finished,
}

/// What is to be done next for a save.
#[derive(Debug)]
pub enum SaveCommand {
    /// Write `content` to the temporary file, in place of what it may hold.
    WriteTemp { content: String },
    /// Move the temporary file into the place of the saved file.
    ReplaceSaved,
    /// Nothing more: the save succeeded, or failed with a cause.
    Finish(Result<(), String>),
}

/// What a command says, with texts in place of strings.
pub enum CommandModel {
    WriteTemp { content: Seq<char> },
    ReplaceSaved,
    Finish(Result<(), Seq<char>>),
}

impl View for SaveCommand {
    type V = CommandModel;

    open spec fn view(&self) -> CommandModel {
        match *self {
            SaveCommand::WriteTemp { content } => CommandModel::WriteTemp { content: content@ },
            SaveCommand::ReplaceSaved => CommandModel::ReplaceSaved,
            SaveCommand::Finish(result) => CommandModel::Finish(done_model(result)),
        }
    }
}

/// How a save begins, given the session as text or the cause for which it
/// could not be turned into text.
pub open spec fn save_begun(encoded: Result<Seq<char>, Seq<char>>) -> (SaveStage, CommandModel) {
    match encoded {
        Ok(content) => (SaveStage::Writing, CommandModel::WriteTemp { content }),
        Err(cause) => (SaveStage::Finished, CommandModel::Finish(Err(cause))),
    }
}

/// How a save goes on once the last command is done. The temporary file
/// replaces the saved file only after it was written without failure; any
/// failure ends the save and is passed on.
pub open spec fn save_continued(stage: SaveStage, done: Result<(), Seq<char>>) -> (SaveStage, CommandModel) {
    match done {
        Err(cause) => (SaveStage::Finished, CommandModel::Finish(Err(cause))),
        Ok(_) => match stage {
            SaveStage::Writing => (SaveStage::Replacing, CommandModel::ReplaceSaved),
            SaveStage::Replacing => (SaveStage::Finished, CommandModel::Finish(Ok(()))),
            SaveStage::Finished => (SaveStage::Finished, CommandModel::Finish(Ok(()))),
        },
    }
}

/// Begins a save.
pub fn begin_save(encoded: Result<String, String>) -> (next: (SaveStage, SaveCommand))
    ensures
        (next.0, next.1@) == save_begun(reply_model(encoded)),
{
    match encoded {
        Ok(content) => (SaveStage::Writing, SaveCommand::WriteTemp { content }),
        Err(cause) => (SaveStage::Finished, SaveCommand::Finish(Err(cause))),
    }
}

/// Goes on with a save after the last command is done.
pub fn continue_save(stage: SaveStage, done: Result<(), String>) -> (next: (SaveStage, SaveCommand))
    ensures
        (next.0, next.1@) == save_continued(stage, done_model(done)),
{
    match done {
        Err(cause) => (SaveStage::Finished, SaveCommand::Finish(Err(cause))),
        Ok(_) => match stage {
            SaveStage::Writing => (SaveStage::Replacing, SaveCommand::ReplaceSaved),
            SaveStage::Replacing => (SaveStage::Finished, SaveCommand::Finish(Ok(()))),
            SaveStage::Finished => (SaveStage::Finished, SaveCommand::Finish(Ok(()))),
        },
    }
}

/// The two files as a reader finds them: what each holds, if it exists.
pub struct Disk {
    pub saved: Option<Seq<char>>,
    pub temp: Option<Seq<char>>,
}

/// The disk after a command was carried out, or was cut short. A write
/// touches the temporary file only: done, it leaves the content there; cut
/// short or failed, it leaves `debris`, which may be anything or nothing.
/// The move puts the temporary file in the place of the saved file, or,
/// failed, changes nothing.
pub open spec fn disk_after(disk: Disk, command: CommandModel, done: bool, debris: Option<Seq<char>>) -> Disk {
    match command {
        CommandModel::WriteTemp { content } => Disk {
            saved: disk.saved,
            temp: if done {
                Some(content)
            } else {
                debris
            },
        },
        CommandModel::ReplaceSaved => if done {
            Disk { saved: disk.temp, temp: None }
        } else {
            disk
        },
        CommandModel::Finish(_) => disk,
    }
}

/// The disk after a save of `content` that went through `moves` commands
/// before it stopped or was cut short; the last of them was cut short if
/// `cut` says so, and left `debris` behind.
pub open spec fn disk_during_save(
    disk: Disk,
    content: Seq<char>,
    moves: nat,
    cut: bool,
    debris: Option<Seq<char>>,
) -> Disk {
    if moves == 0 {
        disk
    } else if moves == 1 {
        disk_after(disk, save_begun(Ok(content)).1, !cut, debris)
    } else {
        disk_after(
            disk_after(disk, save_begun(Ok(content)).1, true, debris),
            save_continued(SaveStage::Writing, Ok(())).1,
            !cut,
            debris,
        )
    }
}

/// A save that is cut short before the temporary file has taken the place
/// of the saved file leaves the saved file as it was: whatever was written
/// so far, and whatever is left of it.
pub proof fn lemma_interrupted_save_keeps_saved_file(
    disk: Disk,
    content: Seq<char>,
    moves: nat,
    cut: bool,
    debris: Option<Seq<char>>,
)
    requires
        moves <= 1 || cut,
    ensures
        disk_during_save(disk, content, moves, cut, debris).saved == disk.saved,
{
}

/// At every moment of a save the saved file holds either what it held
/// before, or the new content in full.
pub proof fn lemma_saved_file_is_old_or_new(
    disk: Disk,
    content: Seq<char>,
    moves: nat,
    cut: bool,
    debris: Option<Seq<char>>,
)
    ensures
        ({
            let saved = disk_during_save(disk, content, moves, cut, debris).saved;
            saved == disk.saved || saved == Some(content)
        }),
{
}

/// After a save that ran to its end, the saved file holds exactly the
/// content that was handed to the save, and the temporary file is gone.
pub proof fn lemma_finished_save_holds_content(disk: Disk, content: Seq<char>, debris: Option<Seq<char>>)
    ensures
        disk_during_save(disk, content, 2, false, debris) == (Disk { saved: Some(content), temp: None }),
{
}

/// The saved file is replaced only after the temporary file was written
/// without failure: no other turn of a save gives the command to replace it.
pub proof fn lemma_replace_follows_full_write(stage: SaveStage, done: Result<(), Seq<char>>)
    ensures
        save_continued(stage, done).1 == CommandModel::ReplaceSaved <==> (stage == SaveStage::Writing && done is Ok),
{
}

} // verus!
