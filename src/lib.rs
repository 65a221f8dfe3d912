pub mod figures;
pub mod playfield;
pub mod updateable_view;
pub mod next_tetro_ctrl;
pub mod fall;
pub mod score_ctrl;
pub mod playtime_ctrl;
pub mod static_ctrl;
pub mod endgame_ctrl;
pub mod tlv;
pub mod playfield_ctrl;
pub mod engine;
