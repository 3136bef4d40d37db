pub mod ply;
pub mod rules;
pub mod attack_check;
pub mod make_move;
pub mod legality;
pub mod generate;
pub mod ply_text;
pub mod laws;
