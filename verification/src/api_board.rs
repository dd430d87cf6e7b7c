//! A board drawn from the stored text of a position.

use vstd::prelude::*;
use vstd::string::*;
use crate::board::{read_shown, shown};
use crate::fen::safe_to_parse;
use crate::html::{board_html, draw_board};
use crate::ident::{id_text, write_id};

verus! {

/// A game known by its id and the text of its latest position.
pub struct PartialGameWithFen {
    pub id: u128,
    pub current_fen: String,
}

impl PartialGameWithFen {
    pub fn id(&self) -> (id: u128)
        ensures
            id == self.id,
    {
        self.id
    }

    pub fn current_fen(&self) -> (fen: &str)
        ensures
            fen@ == self.current_fen@,
    {
        self.current_fen.as_str()
    }
}

/// The drawn board of a game.
pub struct ApiBoard {
    pub game_id: String,
    pub board_html: String,
}

/// Why a board could not be drawn.
#[derive(Debug)]
pub enum ApiBoardError {
    /// The text gives no board; the fault is described.
    FenBuilder(String),
}

/// Draws the board that a Forsyth-Edwards text shows, seen from White's
/// side. Every text that is safe to hand to the engine and that the engine
/// accepts is drawn, whether or not the position is fit for play.
pub fn render_html_board(fen: &str) -> (drawn: Result<String, ApiBoardError>)
    ensures
        match shown(fen@) {
            Some(position) => drawn.is_ok() && drawn->Ok_0@ == board_html(position, false),
            None => drawn.is_err(),
        },
        !safe_to_parse(fen@) ==> (drawn matches Err(ApiBoardError::FenBuilder(fault)) && fault@
            == "misshapen text"@),
{
    match read_shown(fen) {
        Ok(board) => Ok(draw_board(&board, false)),
        Err(fault) => Err(ApiBoardError::FenBuilder(fault)),
    }
}

impl ApiBoard {
    pub fn game_id(&self) -> (id: &str)
        ensures
            id@ == self.game_id@,
    {
        self.game_id.as_str()
    }

    pub fn board_html(&self) -> (html: &str)
        ensures
            html@ == self.board_html@,
    {
        self.board_html.as_str()
    }

    /// Draws the latest position of a game, seen from White's side.
    pub fn try_from(game: PartialGameWithFen) -> (drawn: Result<ApiBoard, ApiBoardError>)
        ensures
            match shown(game.current_fen@) {
                Some(position) => drawn.is_ok() && drawn->Ok_0.game_id@ == id_text(game.id)
                    && drawn->Ok_0.board_html@ == board_html(position, false),
                None => drawn.is_err(),
            },
    {
        let game_id = write_id(game.id());
        match render_html_board(game.current_fen()) {
            Ok(board_html) => Ok(ApiBoard { game_id, board_html }),
            Err(error) => Err(error),
        }
    }
}

} // verus!
