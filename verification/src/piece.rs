//! Piece model: piece types, movement capability flags, rule descriptors, and
//! the piece itself (type, color, has-moved flag, external identifier, rules).
use vstd::prelude::*;

verus! {

/// The kinds of pieces the fixed setup places on the board.
#[derive(Clone, Copy, PartialEq, Eq, Structural, Debug)]
pub enum PieceTypes {
    Pawn,
    Rook,
    Knight,
    Bishop,
    Queen,
    King,
    Jester,
    Amazon,
    GrandCommander,
    Abbess,
}

/// A set of independent movement capability flags.  A piece's legal-move test
/// is the logical OR across all flags it holds.
#[derive(Clone, Copy, PartialEq, Eq, Structural, Debug)]
pub struct MovementsRules {
    /// Pawn-like movement: straight advance onto empty squares, diagonal
    /// single-step capture onto enemy squares.
    pub pawn_movment: bool,
    /// Movement along a column (`delta_col == 0`).
    pub vertical_movment: bool,
    /// Movement along a row (`delta_row == 0`).
    pub horizontal_movment: bool,
    /// Movement with `|delta_col| == |delta_row|`.
    pub diagonal_movment: bool,
    /// A radial jump: the squared Euclidean distance must be divisible by 5.
    pub shift_step_movment: bool,
}

/// Immutable data describing how a piece type may move.
#[derive(Clone, Copy, PartialEq, Eq, Debug)]
pub struct Rules {
    /// Which movement capabilities the piece holds.
    pub movment_rules: MovementsRules,
    /// When false, intervening squares on the path must be empty.
    pub step_over_rule: bool,
    /// Maximum movement distance; `None` means unbounded range.
    pub max_distance: Option<i32>,
    /// When false, movement is restricted to the direction the color advances
    /// toward (forward-only), as for pawn-like pieces.
    pub multiple_direction_rule: bool,
}

/// The rule descriptor of a piece type, as the setup table prescribes it.
pub open spec fn spec_rules_of(piece_type: PieceTypes) -> Rules {
    match piece_type {
        PieceTypes::Pawn => Rules {
            movment_rules: MovementsRules {
                pawn_movment: true,
                vertical_movment: false,
                horizontal_movment: false,
                diagonal_movment: false,
                shift_step_movment: false,
            },
            step_over_rule: false,
            max_distance: Some(3),
            multiple_direction_rule: false,
        },
        PieceTypes::Rook => Rules {
            movment_rules: MovementsRules {
                pawn_movment: false,
                vertical_movment: true,
                horizontal_movment: true,
                diagonal_movment: false,
                shift_step_movment: false,
            },
            step_over_rule: false,
            max_distance: None,
            multiple_direction_rule: true,
        },
        PieceTypes::Knight => Rules {
            movment_rules: MovementsRules {
                pawn_movment: false,
                vertical_movment: false,
                horizontal_movment: false,
                diagonal_movment: false,
                shift_step_movment: true,
            },
            step_over_rule: true,
            max_distance: Some(5),
            multiple_direction_rule: true,
        },
        PieceTypes::Bishop => Rules {
            movment_rules: MovementsRules {
                pawn_movment: false,
                vertical_movment: false,
                horizontal_movment: false,
                diagonal_movment: true,
                shift_step_movment: false,
            },
            step_over_rule: false,
            max_distance: None,
            multiple_direction_rule: true,
        },
        PieceTypes::Queen => Rules {
            movment_rules: MovementsRules {
                pawn_movment: false,
                vertical_movment: true,
                horizontal_movment: true,
                diagonal_movment: true,
                shift_step_movment: false,
            },
            step_over_rule: false,
            max_distance: None,
            multiple_direction_rule: true,
        },
        PieceTypes::King => Rules {
            movment_rules: MovementsRules {
                pawn_movment: false,
                vertical_movment: true,
                horizontal_movment: true,
                diagonal_movment: true,
                shift_step_movment: false,
            },
            step_over_rule: false,
            max_distance: Some(1),
            multiple_direction_rule: true,
        },
        PieceTypes::Jester => Rules {
            movment_rules: MovementsRules {
                pawn_movment: true,
                vertical_movment: false,
                horizontal_movment: false,
                diagonal_movment: false,
                shift_step_movment: false,
            },
            step_over_rule: true,
            max_distance: Some(2),
            multiple_direction_rule: true,
        },
        PieceTypes::Amazon => Rules {
            movment_rules: MovementsRules {
                pawn_movment: false,
                vertical_movment: true,
                horizontal_movment: true,
                diagonal_movment: true,
                shift_step_movment: false,
            },
            step_over_rule: false,
            max_distance: Some(2),
            multiple_direction_rule: true,
        },
        PieceTypes::GrandCommander => Rules {
            movment_rules: MovementsRules {
                pawn_movment: false,
                vertical_movment: false,
                horizontal_movment: false,
                diagonal_movment: false,
                shift_step_movment: true,
            },
            step_over_rule: true,
            max_distance: Some(24),
            multiple_direction_rule: true,
        },
        PieceTypes::Abbess => Rules {
            movment_rules: MovementsRules {
                pawn_movment: true,
                vertical_movment: false,
                horizontal_movment: false,
                diagonal_movment: false,
                shift_step_movment: false,
            },
            step_over_rule: true,
            max_distance: Some(2),
            multiple_direction_rule: true,
        },
    }
}

impl Rules {
    /// Builds a rule descriptor from its four components.
    pub fn new(
        movment_rules: MovementsRules,
        step_over: bool,
        max_distance: Option<i32>,
        multi_direction: bool,
    ) -> (r: Rules)
        ensures
            r == (Rules {
                movment_rules,
                step_over_rule: step_over,
                max_distance,
                multiple_direction_rule: multi_direction,
            }),
    {
        Rules {
            movment_rules,
            step_over_rule: step_over,
            max_distance,
            multiple_direction_rule: multi_direction,
        }
    }

    /// The fixed rule descriptor of each piece type, as the setup table
    /// prescribes it.
    pub fn get_rules(piece_type: PieceTypes) -> (r: Rules)
        ensures
            r == spec_rules_of(piece_type),
    {
        let (pawn, vertical, horizontal, diagonal, shift_step): (bool, bool, bool, bool, bool) =
            match piece_type {
                PieceTypes::Pawn => (true, false, false, false, false),
                PieceTypes::Rook => (false, true, true, false, false),
                PieceTypes::Knight => (false, false, false, false, true),
                PieceTypes::Bishop => (false, false, false, true, false),
                PieceTypes::Queen => (false, true, true, true, false),
                PieceTypes::King => (false, true, true, true, false),
                PieceTypes::Jester => (true, false, false, false, false),
                PieceTypes::Amazon => (false, true, true, true, false),
                PieceTypes::GrandCommander => (false, false, false, false, true),
                PieceTypes::Abbess => (true, false, false, false, false),
            };
        let step_over: bool = match piece_type {
            PieceTypes::Knight => true,
            PieceTypes::Jester => true,
            PieceTypes::GrandCommander => true,
            PieceTypes::Abbess => true,
            _ => false,
        };
        let max_distance: Option<i32> = match piece_type {
            PieceTypes::Pawn => Some(3),
            PieceTypes::Knight => Some(5),
            PieceTypes::King => Some(1),
            PieceTypes::Jester => Some(2),
            PieceTypes::Amazon => Some(2),
            PieceTypes::GrandCommander => Some(24),
            PieceTypes::Abbess => Some(2),
            _ => None,
        };
        let multi_direction: bool = match piece_type {
            PieceTypes::Pawn => false,
            _ => true,
        };
        Rules {
            movment_rules: MovementsRules {
                pawn_movment: pawn,
                vertical_movment: vertical,
                horizontal_movment: horizontal,
                diagonal_movment: diagonal,
                shift_step_movment: shift_step,
            },
            step_over_rule: step_over,
            max_distance,
            multiple_direction_rule: multi_direction,
        }
    }
}

/// A movement-capable occupant of one square.  The external identifier is a
/// non-owning lookup key into the rendering collaborator's visual objects;
/// the engine never allocates or frees it, only forwards it in events.
#[derive(Clone, Copy, PartialEq, Eq, Debug)]
pub struct Piece {
    /// Which kind of piece this is.
    pub piece_type: PieceTypes,
    /// `true` for one side ("white"), `false` for the other.
    pub color: bool,
    /// Whether the piece has been moved since the setup.
    pub has_moved: bool,
    /// The external visual object's identifier, if one was attached.
    pub id: Option<u64>,
    /// How the piece may move.
    pub rules: Rules,
}

impl Piece {
    /// A fresh piece: not yet moved, with no external identifier attached.
    pub fn new(piece_type: PieceTypes, color: bool, rules: Rules) -> (r: Piece)
        ensures
            r == (Piece { piece_type, color, has_moved: false, id: None, rules }),
    {
        Piece { piece_type, color, has_moved: false, id: None, rules }
    }

    /// The external identifier attached to this piece, if any.
    pub fn get_id(&self) -> (r: Option<u64>)
        ensures
            r == self.id,
    {
        self.id
    }

    /// The piece's kind.
    pub fn get_type(&self) -> (r: PieceTypes)
        ensures
            r == self.piece_type,
    {
        self.piece_type
    }

    /// The piece's color.
    pub fn get_color(&self) -> (r: bool)
        ensures
            r == self.color,
    {
        self.color
    }

    /// Whether the piece has been moved since the setup.
    pub fn has_moved(&self) -> (r: bool)
        ensures
            r == self.has_moved,
    {
        self.has_moved
    }

    /// Marks the piece as moved; everything else is unchanged.
    pub fn set_has_moved(&mut self)
        ensures
            *final(self) == (Piece { has_moved: true, ..*old(self) }),
    {
        self.has_moved = true;
    }

    /// The piece's rule descriptor.
    pub fn get_rules(&self) -> (r: Rules)
        ensures
            r == self.rules,
    {
        self.rules
    }
}

} // verus!
