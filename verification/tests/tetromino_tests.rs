use purple_box::shapes::{I_SHAPES, O_SHAPES, T_SHAPES, W_SHAPES, X_SHAPES};
use purple_box::tetromino::{
    PieceSource, Tetromino, TetrominoType, SPAWN_X, SPAWN_Y, VARIANT_COUNT,
};

const ALL: [TetrominoType; 13] = [
    TetrominoType::I,
    TetrominoType::O,
    TetrominoType::T,
    TetrominoType::S,
    TetrominoType::Z,
    TetrominoType::J,
    TetrominoType::L,
    TetrominoType::U,
    TetrominoType::V,
    TetrominoType::W,
    TetrominoType::X,
    TetrominoType::Y,
    TetrominoType::ZCustom,
];

fn cells(blocks: &[[bool; 4]; 4]) -> usize {
    blocks.iter().map(|row| row.iter().filter(|&&cell| cell).count()).sum()
}

#[test]
fn new_piece_starts_at_spawn_position() {
    for variant in ALL {
        let piece = Tetromino::new(variant);
        assert_eq!(piece.tetromino_type, variant);
        assert_eq!(piece.rotation, 0);
        assert_eq!(piece.x, 6);
        assert_eq!(piece.y, 0);
        assert_eq!(piece.x, SPAWN_X);
        assert_eq!(piece.y, SPAWN_Y);
        assert_eq!(piece.blocks, Tetromino::get_blocks(variant, 0));
    }
}

#[test]
fn geometry_of_the_line_piece() {
    let flat = [
        [false, false, false, false],
        [true, true, true, true],
        [false, false, false, false],
        [false, false, false, false],
    ];
    let upright = [
        [false, false, true, false],
        [false, false, true, false],
        [false, false, true, false],
        [false, false, true, false],
    ];
    assert_eq!(Tetromino::get_blocks(TetrominoType::I, 0), flat);
    assert_eq!(Tetromino::get_blocks(TetrominoType::I, 1), upright);
    assert_eq!(Tetromino::get_blocks(TetrominoType::I, 2), I_SHAPES[2]);
    assert_eq!(Tetromino::get_blocks(TetrominoType::I, 3), I_SHAPES[3]);
    assert_ne!(I_SHAPES[0], I_SHAPES[2]);
    assert_ne!(I_SHAPES[1], I_SHAPES[3]);
}

#[test]
fn geometry_of_the_t_piece() {
    let up = [
        [false, true, false, false],
        [true, true, true, false],
        [false, false, false, false],
        [false, false, false, false],
    ];
    let left = [
        [false, true, false, false],
        [true, true, false, false],
        [false, true, false, false],
        [false, false, false, false],
    ];
    assert_eq!(Tetromino::get_blocks(TetrominoType::T, 0), up);
    assert_eq!(Tetromino::get_blocks(TetrominoType::T, 3), left);
    assert_eq!(T_SHAPES[0], up);
}

#[test]
fn rotation_index_wraps_at_the_number_of_states() {
    for variant in ALL {
        for rotation in 0..4usize {
            assert_eq!(
                Tetromino::get_blocks(variant, rotation + 4),
                Tetromino::get_blocks(variant, rotation)
            );
            assert_eq!(
                Tetromino::get_blocks(variant, rotation + 400),
                Tetromino::get_blocks(variant, rotation)
            );
        }
    }
    assert_eq!(
        Tetromino::get_blocks(TetrominoType::T, usize::MAX),
        Tetromino::get_blocks(TetrominoType::T, 3)
    );
}

#[test]
fn symmetric_pieces_have_one_state() {
    for rotation in 0..9usize {
        assert_eq!(Tetromino::get_blocks(TetrominoType::O, rotation), O_SHAPES[0]);
        assert_eq!(Tetromino::get_blocks(TetrominoType::X, rotation), X_SHAPES[0]);
    }
    let square = [
        [false, true, true, false],
        [false, true, true, false],
        [false, false, false, false],
        [false, false, false, false],
    ];
    assert_eq!(O_SHAPES[0], square);
}

#[test]
fn cell_counts_of_the_table() {
    let classic = [
        TetrominoType::I,
        TetrominoType::O,
        TetrominoType::T,
        TetrominoType::S,
        TetrominoType::Z,
        TetrominoType::J,
        TetrominoType::L,
    ];
    for variant in classic {
        for rotation in 0..4usize {
            assert_eq!(cells(&Tetromino::get_blocks(variant, rotation)), 4);
        }
    }
    for variant in [TetrominoType::U, TetrominoType::V, TetrominoType::ZCustom] {
        for rotation in 0..4usize {
            assert_eq!(cells(&Tetromino::get_blocks(variant, rotation)), 5);
        }
    }
    assert_eq!(cells(&X_SHAPES[0]), 5);
    for rotation in 0..4usize {
        assert_eq!(cells(&Tetromino::get_blocks(TetrominoType::Y, rotation)), 6);
    }
    assert_eq!(cells(&W_SHAPES[0]), 5);
    assert_eq!(cells(&W_SHAPES[1]), 5);
    assert_eq!(cells(&W_SHAPES[2]), 5);
    assert_eq!(cells(&W_SHAPES[3]), 4);
}

#[test]
fn rotate_advances_the_state_and_keeps_the_anchor() {
    let mut piece = Tetromino::new(TetrominoType::L);
    piece.x = 2;
    piece.y = 5;
    piece.rotate();
    assert_eq!(piece.rotation, 1);
    assert_eq!((piece.x, piece.y), (2, 5));
    assert_eq!(piece.blocks, Tetromino::get_blocks(TetrominoType::L, 1));
    piece.rotate();
    piece.rotate();
    assert_eq!(piece.rotation, 3);
    piece.rotate();
    assert_eq!(piece.rotation, 0);
}

#[test]
fn rotate_counts_through_four_states_for_symmetric_pieces_too() {
    let mut piece = Tetromino::new(TetrominoType::O);
    piece.rotate();
    assert_eq!(piece.rotation, 1);
    assert_eq!(piece.blocks, O_SHAPES[0]);
    piece.rotate();
    assert_eq!(piece.rotation, 2);
    piece.rotate();
    assert_eq!(piece.rotation, 3);
    piece.rotate();
    assert_eq!(piece.rotation, 0);
}

#[test]
fn four_rotations_restore_every_piece() {
    for variant in ALL {
        for start in 0..4usize {
            let mut piece = Tetromino::new(variant);
            for _ in 0..start {
                piece.rotate();
            }
            piece.x = -1;
            piece.y = 9;
            let before = piece;
            piece.rotate();
            piece.rotate();
            piece.rotate();
            piece.rotate();
            assert_eq!(piece, before);
            assert_eq!(piece.blocks, before.blocks);
        }
    }
}

#[test]
fn rotate_from_a_counter_out_of_range() {
    let mut piece = Tetromino::new(TetrominoType::S);
    piece.rotation = 6;
    piece.rotate();
    assert_eq!(piece.rotation, 3);
    assert_eq!(piece.blocks, Tetromino::get_blocks(TetrominoType::S, 3));
    piece.rotation = usize::MAX;
    piece.rotate();
    assert_eq!(piece.rotation, 0);
}

#[test]
fn translate_shifts_the_anchor_only() {
    let mut piece = Tetromino::new(TetrominoType::Z);
    let blocks = piece.blocks;
    piece.translate(-3, 4);
    assert_eq!((piece.x, piece.y), (3, 4));
    piece.translate(1, -1);
    assert_eq!((piece.x, piece.y), (4, 3));
    assert_eq!(piece.blocks, blocks);
    assert_eq!(piece.rotation, 0);
    assert_eq!(piece.tetromino_type, TetrominoType::Z);
}

#[test]
fn variants_by_index() {
    assert_eq!(VARIANT_COUNT, 13);
    for (index, variant) in ALL.iter().enumerate() {
        assert_eq!(TetrominoType::from_index(index), Some(*variant));
    }
    assert_eq!(TetrominoType::from_index(13), None);
    assert_eq!(TetrominoType::from_index(usize::MAX), None);
}

#[test]
fn random_pieces_are_fresh_and_vary() {
    let mut seen = [false; 13];
    for _ in 0..2000 {
        let piece = Tetromino::random();
        assert_eq!(piece, Tetromino::new(piece.tetromino_type));
        let index = ALL.iter().position(|v| *v == piece.tetromino_type);
        assert!(index.is_some());
        seen[index.unwrap()] = true;
    }
    assert!(seen.iter().filter(|&&s| s).count() >= 2);
}

#[test]
fn random_variants_vary() {
    let first = TetrominoType::random();
    let mut differs = false;
    for _ in 0..2000 {
        if TetrominoType::random() != first {
            differs = true;
        }
    }
    assert!(differs);
}

#[test]
fn sources_with_one_seed_agree() {
    let mut first = PieceSource::from_seed(42);
    let mut second = PieceSource::from_seed(42);
    for _ in 0..500 {
        assert_eq!(first.next_variant(), second.next_variant());
    }
}

#[test]
fn seeded_source_hands_out_every_variant() {
    let mut source = PieceSource::from_seed(7);
    let mut seen = [false; 13];
    for _ in 0..5000 {
        let variant = source.next_variant();
        let index = ALL.iter().position(|v| *v == variant).unwrap();
        seen[index] = true;
    }
    assert!(seen.iter().all(|&s| s));
}

#[test]
fn sources_with_different_seeds_differ() {
    let mut first = PieceSource::from_seed(1);
    let mut second = PieceSource::from_seed(2);
    let mut differs = false;
    for _ in 0..500 {
        if first.next_variant() != second.next_variant() {
            differs = true;
        }
    }
    assert!(differs);
}

fn picture(blocks: &[[bool; 4]; 4]) -> String {
    let mut text = String::new();
    for row in blocks {
        for cell in row {
            text.push(if *cell { '#' } else { '.' });
        }
        text.push('/');
    }
    text
}

#[test]
fn geometry_table() {
    let table: [(TetrominoType, [&str; 4]); 13] = [
        (
            TetrominoType::I,
            [
                "..../####/..../..../",
                "..#./..#./..#./..#./",
                "..../..../####/..../",
                ".#../.#../.#../.#../",
            ],
        ),
        (
            TetrominoType::O,
            [
                ".##./.##./..../..../",
                ".##./.##./..../..../",
                ".##./.##./..../..../",
                ".##./.##./..../..../",
            ],
        ),
        (
            TetrominoType::T,
            [
                ".#../###./..../..../",
                ".#../.##./.#../..../",
                "..../###./.#../..../",
                ".#../##../.#../..../",
            ],
        ),
        (
            TetrominoType::S,
            [
                ".##./##../..../..../",
                ".#../.##./..#./..../",
                "..../.##./##../..../",
                "#.../##../.#../..../",
            ],
        ),
        (
            TetrominoType::Z,
            [
                "##../.##./..../..../",
                "..#./.##./.#../..../",
                "..../##../.##./..../",
                ".#../##../#.../..../",
            ],
        ),
        (
            TetrominoType::J,
            [
                "#.../###./..../..../",
                ".##./.#../.#../..../",
                "..../###./..#./..../",
                ".#../.#../##../..../",
            ],
        ),
        (
            TetrominoType::L,
            [
                "..#./###./..../..../",
                ".#../.#../.##./..../",
                "..../###./#.../..../",
                "##../.#../.#../..../",
            ],
        ),
        (
            TetrominoType::U,
            [
                "#.#./###./..../..../",
                ".##./.#../.##./..../",
                "..../###./#.#./..../",
                "##../.#../##../..../",
            ],
        ),
        (
            TetrominoType::V,
            [
                "#.../#.../###./..../",
                "..#./..#./###./..../",
                "..../###./..#./..#./",
                "###./#.../#.../..../",
            ],
        ),
        (
            TetrominoType::W,
            [
                "#.../##../.##./..../",
                "..#./.##./.#../.#../",
                "..../##../.##./..#./",
                ".#../##../#.../..../",
            ],
        ),
        (
            TetrominoType::X,
            [
                ".#../###./.#../..../",
                ".#../###./.#../..../",
                ".#../###./.#../..../",
                ".#../###./.#../..../",
            ],
        ),
        (
            TetrominoType::Y,
            [
                ".#../###./.#../.#../",
                ".##./.#../.##./.#../",
                ".#../.#../###./.#../",
                ".#../##../.#../##../",
            ],
        ),
        (
            TetrominoType::ZCustom,
            [
                "##../.##./..#./..../",
                "..#./.##./.#../.#../",
                "..../#.../##../.##./",
                ".#../.#../.##./#.../",
            ],
        ),
    ];
    for (variant, pictures) in table {
        for (rotation, expected) in pictures.iter().enumerate() {
            assert_eq!(picture(&Tetromino::get_blocks(variant, rotation)), *expected);
        }
    }
}

#[test]
fn new_source_has_handed_out_nothing() {
    let source = PieceSource::from_seed(42);
    assert_eq!(source.seed, 42);
    assert_eq!(source.drawn, 0);
    assert_eq!(source, PieceSource { seed: 42, drawn: 0 });
    assert_ne!(PieceSource::from_seed(43), source);
}

#[test]
fn source_counts_what_it_hands_out() {
    let mut source = PieceSource::from_seed(9);
    source.next_variant();
    source.next_variant();
    source.next_variant();
    assert_eq!(source, PieceSource { seed: 9, drawn: 3 });
    let mut last = PieceSource { seed: 9, drawn: u64::MAX };
    last.next_variant();
    assert_eq!(last, PieceSource { seed: 9, drawn: 0 });
}

#[test]
fn variant_goes_by_seed_and_count_alone() {
    let mut source = PieceSource::from_seed(77);
    let mut handed_out = Vec::new();
    for _ in 0..200 {
        handed_out.push(source.next_variant());
    }
    for (count, variant) in handed_out.iter().enumerate() {
        let mut jumped = PieceSource { seed: 77, drawn: count as u64 };
        assert_eq!(jumped.next_variant(), *variant);
    }
    let mut copy = PieceSource { seed: 77, drawn: 100 };
    for variant in &handed_out[100..] {
        assert_eq!(copy.next_variant(), *variant);
    }
}

#[test]
fn neighbouring_seeds_are_not_shifted_copies() {
    let mut first = PieceSource::from_seed(1);
    let mut second = PieceSource::from_seed(2);
    first.next_variant();
    let mut differs = false;
    for _ in 0..500 {
        if first.next_variant() != second.next_variant() {
            differs = true;
        }
    }
    assert!(differs);
}
