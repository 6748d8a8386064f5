use fractal_metadata::evm::types::{DecodeError, Field, Fixed, Metadata, Token, Word, X_OFFSET, Y_OFFSET};

const SCALE: u128 = 1_000_000_000_000_000_000;
const UNIT: i128 = 1_000_000_000_000_000_000;

fn fx(v: i128) -> Fixed {
    Fixed { negative: v < 0, magnitude: v.unsigned_abs() }
}

fn field(x_min: i128, y_min: i128, x_max: i128, y_max: i128) -> Field {
    Field { x_min: fx(x_min), y_min: fx(y_min), x_max: fx(x_max), y_max: fx(y_max) }
}

fn uint(v: u128) -> Token {
    Token::Uint(Word { high: 0, low: v })
}

fn sample_field() -> Field {
    field(-2 * UNIT, -UNIT, UNIT / 2, UNIT)
}

fn sample_record() -> Metadata {
    Metadata {
        token_id: 7,
        owner: [0xab; 20],
        parent_id: 3,
        field: sample_field(),
        locked_fuel: 1_500_000_000_000_000_000,
        minimum_price: 20,
        layer: 2,
    }
}

#[test]
fn field_round_trip() {
    let f = sample_field();
    assert_eq!(Field::from_token(&f.into_token()), Ok(f));
}

#[test]
fn field_round_trip_at_lowest_supported() {
    let f = Field {
        x_min: Fixed { negative: true, magnitude: X_OFFSET },
        y_min: Fixed { negative: true, magnitude: Y_OFFSET },
        x_max: Fixed { negative: false, magnitude: u128::MAX - X_OFFSET },
        y_max: Fixed { negative: false, magnitude: u128::MAX - Y_OFFSET },
    };
    assert!(f.is_supported());
    assert_eq!(Field::from_token(&f.into_token()), Ok(f));
}

#[test]
fn field_encoding_adds_offsets() {
    let f = sample_field();
    let expected = Token::Tuple(vec![
        uint(100_000_000_000_000_000),
        uint(500_000_000_000_000_000),
        uint(2_600_000_000_000_000_000),
        uint(2_500_000_000_000_000_000),
    ]);
    assert_eq!(f.into_token(), expected);
}

#[test]
fn field_below_offset_is_stored_as_zero() {
    let f = field(-3 * UNIT, -2 * UNIT, 0, 0);
    let t = f.into_token();
    match t {
        Token::Tuple(ts) => {
            assert_eq!(ts[0], uint(0));
            assert_eq!(ts[1], uint(0));
        }
        _ => panic!("not a tuple"),
    }
}

#[test]
fn field_decoding_subtracts_offsets() {
    let t = Token::Tuple(vec![uint(0), uint(0), uint(4_100_000_000_000_000_000), uint(3_000_000_000_000_000_000)]);
    let f = Field::from_token(&t).unwrap();
    assert_eq!(f, field(-(X_OFFSET as i128), -(Y_OFFSET as i128), 2 * UNIT, 3 * UNIT / 2));
}

#[test]
fn field_with_three_elements_is_rejected() {
    let t = Token::Tuple(vec![uint(0), uint(0), uint(0)]);
    assert_eq!(Field::from_token(&t), Err(DecodeError));
}

#[test]
fn field_with_wide_word_is_rejected() {
    let t = Token::Tuple(vec![uint(0), Token::Uint(Word { high: 1, low: 0 }), uint(0), uint(0)]);
    assert_eq!(Field::from_token(&t), Err(DecodeError));
}

#[test]
fn field_with_largest_words_decodes() {
    let t = Token::Tuple(vec![uint(u128::MAX), uint(u128::MAX), uint(0), uint(0)]);
    let f = Field::from_token(&t).unwrap();
    assert_eq!(f.x_min, Fixed { negative: false, magnitude: u128::MAX - X_OFFSET });
    assert_eq!(f.y_min, Fixed { negative: false, magnitude: u128::MAX - Y_OFFSET });
    assert_eq!(f.into_token(), t);
}

#[test]
fn inverted_field_decodes() {
    let t = Token::Tuple(vec![uint(3 * SCALE), uint(0), uint(SCALE), uint(0)]);
    let f = Field::from_token(&t).unwrap();
    assert_eq!(f, field(9 * UNIT / 10, -(Y_OFFSET as i128), -11 * UNIT / 10, -(Y_OFFSET as i128)));
}

#[test]
fn field_above_range_is_stored_as_largest_word() {
    let f = Field { x_min: Fixed { negative: false, magnitude: u128::MAX }, ..field(0, 0, 0, 0) };
    assert!(!f.is_supported());
    match f.into_token() {
        Token::Tuple(ts) => assert_eq!(ts[0], uint(u128::MAX)),
        _ => panic!("not a tuple"),
    }
}

#[test]
fn negative_zero_is_not_supported() {
    let f = Field { x_min: Fixed { negative: true, magnitude: 0 }, ..field(0, 0, 0, 0) };
    assert!(!f.is_supported());
    assert!(field(0, 0, 0, 0).is_supported());
}

#[test]
fn field_from_non_tuple_is_rejected() {
    assert_eq!(Field::from_token(&uint(5)), Err(DecodeError));
    assert_eq!(Field::from_token(&Token::Other), Err(DecodeError));
}

#[test]
fn record_round_trip() {
    let m = sample_record();
    assert_eq!(Metadata::from_token(&m.into_token()), Ok(m));
}

#[test]
fn record_with_bad_owner_is_rejected() {
    let m = sample_record();
    let t = match m.into_token() {
        Token::Tuple(mut ts) => {
            ts[1] = uint(1);
            Token::Tuple(ts)
        }
        _ => panic!("not a tuple"),
    };
    assert_eq!(Metadata::from_token(&t), Err(DecodeError));
}

#[test]
fn record_with_six_elements_is_rejected() {
    let m = sample_record();
    let t = match m.into_token() {
        Token::Tuple(mut ts) => {
            ts.pop();
            Token::Tuple(ts)
        }
        _ => panic!("not a tuple"),
    };
    assert_eq!(Metadata::from_token(&t), Err(DecodeError));
}
