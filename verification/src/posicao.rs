//! Coordinates of a square on the board: a line and a column, each one of
//! eight values.

use vstd::prelude::*;

verus! {

#[derive(Debug, Clone, Copy, PartialEq, Eq, Structural)]
pub struct Posicao {
    pub linha: Linha,
    pub coluna: Coluna,
}

impl Posicao {
    pub fn new(linha: Linha, coluna: Coluna) -> (p: Posicao)
        ensures
            p.linha == linha,
            p.coluna == coluna,
    {
        Posicao { linha: linha, coluna: coluna }
    }
}

#[derive(Debug, Clone, Copy, PartialEq, Eq, Structural)]
pub enum Coluna {
    One,
    Two,
    Three,
    Four,
    Five,
    Six,
    Seven,
    Eight,
}

#[derive(Debug, Clone, Copy, PartialEq, Eq, Structural)]
pub enum Linha {
    A,
    B,
    C,
    D,
    E,
    F,
    G,
    H,
}

/// The line that a number from 1 to 8 stands for.
pub open spec fn linha_of_int(value: int) -> Linha {
    if value == 1 {
        Linha::A
    } else if value == 2 {
        Linha::B
    } else if value == 3 {
        Linha::C
    } else if value == 4 {
        Linha::D
    } else if value == 5 {
        Linha::E
    } else if value == 6 {
        Linha::F
    } else if value == 7 {
        Linha::G
    } else {
        Linha::H
    }
}

/// The column that a number from 1 to 8 stands for.
pub open spec fn coluna_of_int(value: int) -> Coluna {
    if value == 1 {
        Coluna::One
    } else if value == 2 {
        Coluna::Two
    } else if value == 3 {
        Coluna::Three
    } else if value == 4 {
        Coluna::Four
    } else if value == 5 {
        Coluna::Five
    } else if value == 6 {
        Coluna::Six
    } else if value == 7 {
        Coluna::Seven
    } else {
        Coluna::Eight
    }
}

impl Linha {
    /// Numbers outside 1 to 8 name no line and are refused up front.
    pub fn from(value: i32) -> (r: Linha)
        requires
            1 <= value <= 8,
        ensures
            r == linha_of_int(value as int),
    {
        match value {
            1 => Linha::A,
            2 => Linha::B,
            3 => Linha::C,
            4 => Linha::D,
            5 => Linha::E,
            6 => Linha::F,
            7 => Linha::G,
            _ => Linha::H,
        }
    }
}

impl Coluna {
    /// Numbers outside 1 to 8 name no column and are refused up front.
    pub fn from(value: i32) -> (r: Coluna)
        requires
            1 <= value <= 8,
        ensures
            r == coluna_of_int(value as int),
    {
        match value {
            1 => Coluna::One,
            2 => Coluna::Two,
            3 => Coluna::Three,
            4 => Coluna::Four,
            5 => Coluna::Five,
            6 => Coluna::Six,
            7 => Coluna::Seven,
            _ => Coluna::Eight,
        }
    }
}

} // verus!
