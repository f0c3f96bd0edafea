//! A chess game service core: a registry of independent game sessions, the
//! protocol that validates and applies one move against a session, and the
//! derivation of a game's status from its position. Board representation,
//! legal-move generation and the notation codecs come from an external rules
//! engine, reached only through the trusted boundary in `engine`.
pub mod casa;
pub mod engine;
pub mod jogador;
pub mod peca;
pub mod posicao;
pub mod session;
pub mod status;
pub mod tabuleiro;
