use vstd::prelude::*;

verus! {

/// One unit of a fixed-point quantity is 10^-18.
pub const SCALE: u128 = 1_000_000_000_000_000_000;

/// Offset added to an x coordinate before it is stored on chain (2.1).
pub const X_OFFSET: u128 = 2_100_000_000_000_000_000;

/// Offset added to a y coordinate before it is stored on chain (1.5).
pub const Y_OFFSET: u128 = 1_500_000_000_000_000_000;

/// A 256-bit unsigned ABI word, as its high and low 128 bits.
#[derive(Clone, Copy, Debug, PartialEq, Eq)]
pub struct Word {
    pub high: u128,
    pub low: u128,
}

impl Word {
    pub fn from_u128(v: u128) -> (r: Word)
        ensures
            r.high == 0,
            r.low == v,
    {
        Word { high: 0, low: v }
    }
}

/// An ABI value, as far as the contract's records use them.
#[derive(Debug, PartialEq, Eq)]
pub enum Token {
    Uint(Word),
    Address([u8; 20]),
    Tuple(Vec<Token>),
    /// Any other ABI kind (bytes, strings, arrays, booleans, signed integers).
    Other,
}

/// The on-chain value does not have the shape or range of a record.
#[derive(Clone, Copy, Debug, PartialEq, Eq)]
pub struct DecodeError;

/// The integer a token holds, where it is an unsigned word that fits in 128 bits.
pub open spec fn uint_of(t: Token) -> Option<u128> {
    match t {
        Token::Uint(w) => if w.high == 0 { Some(w.low) } else { None },
        _ => None,
    }
}

/// A signed fixed-point quantity in units of 10^-18, as a sign and a magnitude.
#[derive(Clone, Copy, Debug, PartialEq, Eq)]
pub struct Fixed {
    pub negative: bool,
    pub magnitude: u128,
}

impl Fixed {
    pub open spec fn value(self) -> int {
        if self.negative { -(self.magnitude as int) } else { self.magnitude as int }
    }

    /// Zero is written with a clear sign, so that each value has one form.
    pub open spec fn canonical(self) -> bool {
        !(self.negative && self.magnitude == 0)
    }
}

/// The canonical form of `v`, for `v` strictly between -2^128 and 2^128.
pub open spec fn fixed_of(v: int) -> Fixed {
    if v < 0 { Fixed { negative: true, magnitude: (-v) as u128 } } else { Fixed { negative: false, magnitude: v as u128 } }
}

/// A stored coordinate with its axis offset taken off.
pub open spec fn coordinate_of(t: Token, offset: u128) -> Option<Fixed> {
    match uint_of(t) {
        Some(v) => Some(fixed_of(v - offset)),
        None => None,
    }
}

/// What is stored on chain for a coordinate: the offset is added, and the sum is
/// held to the range of a `u128`.
pub open spec fn stored_coordinate(v: Fixed, offset: u128) -> u128 {
    if v.value() + offset < 0 {
        0
    } else if v.value() + offset > u128::MAX {
        u128::MAX
    } else {
        (v.value() + offset) as u128
    }
}

pub fn decode_uint(t: &Token) -> (r: Result<u128, DecodeError>)
    ensures
        r == (match uint_of(*t) { Some(v) => Ok(v), None => Err(DecodeError) }),
{
    match t {
        Token::Uint(w) => if w.high == 0 { Ok(w.low) } else { Err(DecodeError) },
        _ => Err(DecodeError),
    }
}

fn decode_coordinate(t: &Token, offset: u128) -> (r: Result<Fixed, DecodeError>)
    ensures
        r == (match coordinate_of(*t, offset) { Some(v) => Ok(v), None => Err(DecodeError) }),
{
    let v = decode_uint(t)?;
    if v >= offset {
        Ok(Fixed { negative: false, magnitude: v - offset })
    } else {
        Ok(Fixed { negative: true, magnitude: offset - v })
    }
}

fn storable_coordinate(v: Fixed, offset: u128) -> (r: bool)
    ensures
        r == storable(v, offset),
{
    if v.negative { v.magnitude != 0 && v.magnitude <= offset } else { v.magnitude <= u128::MAX - offset }
}

fn encode_coordinate(v: Fixed, offset: u128) -> (r: Token)
    ensures
        r == Token::Uint(Word { high: 0, low: stored_coordinate(v, offset) }),
{
    let low: u128 = if !v.negative {
        if v.magnitude <= u128::MAX - offset { v.magnitude + offset } else { u128::MAX }
    } else if v.magnitude <= offset {
        offset - v.magnitude
    } else {
        0
    };
    Token::Uint(Word::from_u128(low))
}

/// A rectangle of the plane, each coordinate in units of 10^-18.
#[derive(Clone, Copy, Debug, PartialEq, Eq)]
pub struct Field {
    pub x_min: Fixed,
    pub y_min: Fixed,
    pub x_max: Fixed,
    pub y_max: Fixed,
}

/// The field that a tuple of four coordinate words decodes to.
pub open spec fn field_of_parts(ts: Seq<Token>) -> Option<Field> {
    if ts.len() == 4 && coordinate_of(ts[0], X_OFFSET) is Some && coordinate_of(ts[1], Y_OFFSET) is Some
        && coordinate_of(ts[2], X_OFFSET) is Some && coordinate_of(ts[3], Y_OFFSET) is Some {
        Some(Field {
            x_min: coordinate_of(ts[0], X_OFFSET)->0,
            y_min: coordinate_of(ts[1], Y_OFFSET)->0,
            x_max: coordinate_of(ts[2], X_OFFSET)->0,
            y_max: coordinate_of(ts[3], Y_OFFSET)->0,
        })
    } else {
        None
    }
}

pub open spec fn field_of(t: Token) -> Option<Field> {
    match t {
        Token::Tuple(ts) => field_of_parts(ts@),
        _ => None,
    }
}

/// The four words that encode a field.
pub open spec fn field_parts(f: Field) -> Seq<Token> {
    seq![
        Token::Uint(Word { high: 0, low: stored_coordinate(f.x_min, X_OFFSET) }),
        Token::Uint(Word { high: 0, low: stored_coordinate(f.y_min, Y_OFFSET) }),
        Token::Uint(Word { high: 0, low: stored_coordinate(f.x_max, X_OFFSET) }),
        Token::Uint(Word { high: 0, low: stored_coordinate(f.y_max, Y_OFFSET) }),
    ]
}

/// A coordinate in canonical form whose sum with its axis offset fits in a `u128`.
pub open spec fn storable(v: Fixed, offset: u128) -> bool {
    v.canonical() && 0 <= v.value() + offset <= u128::MAX
}

/// Every coordinate can be stored as it is: the values that decoding gives.
pub open spec fn supported(f: Field) -> bool {
    storable(f.x_min, X_OFFSET) && storable(f.y_min, Y_OFFSET) && storable(f.x_max, X_OFFSET)
        && storable(f.y_max, Y_OFFSET)
}

/// Four words that each hold an integer below 2^128.
pub open spec fn field_words(ts: Seq<Token>) -> bool {
    ts.len() == 4 && forall|i: int| 0 <= i < 4 ==> (#[trigger] uint_of(ts[i])) is Some
}

/// Decoding what a field encodes to gives that field back, for every field whose
/// coordinates can be stored; the integer encoding loses nothing.
pub proof fn lemma_field_round_trip(f: Field)
    requires
        supported(f),
    ensures
        field_of_parts(field_parts(f)) == Some(f),
{
}

/// Every four words below 2^128 decode, to a field that can be stored and that
/// encodes to the same words.
pub proof fn lemma_words_round_trip(ts: Seq<Token>)
    requires
        field_words(ts),
    ensures
        field_of_parts(ts) is Some,
        supported(field_of_parts(ts)->0),
        field_parts(field_of_parts(ts)->0) == ts,
{
    assert(uint_of(ts[0]) is Some && uint_of(ts[1]) is Some && uint_of(ts[2]) is Some && uint_of(ts[3]) is Some);
    assert(field_parts(field_of_parts(ts)->0) =~= ts);
}

impl Field {
    /// Whether every coordinate can be stored as it is.
    pub fn is_supported(&self) -> (r: bool)
        ensures
            r == supported(*self),
    {
        storable_coordinate(self.x_min, X_OFFSET) && storable_coordinate(self.y_min, Y_OFFSET)
            && storable_coordinate(self.x_max, X_OFFSET) && storable_coordinate(self.y_max, Y_OFFSET)
    }

    pub fn from_token(token: &Token) -> (r: Result<Field, DecodeError>)
        ensures
            r == (match field_of(*token) { Some(f) => Ok(f), None => Err(DecodeError) }),
            r is Ok <==> (*token matches Token::Tuple(ts) && field_words(ts@)),
            r matches Ok(f) ==> supported(f),
    {
        match token {
            Token::Tuple(ts) => {
                if ts.len() != 4 {
                    return Err(DecodeError);
                }
                let x_min = decode_coordinate(&ts[0], X_OFFSET)?;
                let y_min = decode_coordinate(&ts[1], Y_OFFSET)?;
                let x_max = decode_coordinate(&ts[2], X_OFFSET)?;
                let y_max = decode_coordinate(&ts[3], Y_OFFSET)?;
                Ok(Field { x_min, y_min, x_max, y_max })
            },
            _ => Err(DecodeError),
        }
    }

    pub fn into_token(&self) -> (r: Token)
        ensures
            r matches Token::Tuple(ts) && ts@ == field_parts(*self),
            supported(*self) ==> field_of(r) == Some(*self),
    {
        let mut ts: Vec<Token> = Vec::new();
        ts.push(encode_coordinate(self.x_min, X_OFFSET));
        ts.push(encode_coordinate(self.y_min, Y_OFFSET));
        ts.push(encode_coordinate(self.x_max, X_OFFSET));
        ts.push(encode_coordinate(self.y_max, Y_OFFSET));
        assert(ts@ =~= field_parts(*self));
        Token::Tuple(ts)
    }
}


/// A token's record as the contract stores it. Fuel and price are in units of 10^-18.
#[derive(Clone, Copy, Debug, PartialEq, Eq)]
pub struct Metadata {
    pub token_id: u128,
    pub owner: [u8; 20],
    pub parent_id: u128,
    pub field: Field,
    pub locked_fuel: u128,
    pub minimum_price: u128,
    pub layer: u128,
}

pub open spec fn address_of(t: Token) -> Option<[u8; 20]> {
    match t {
        Token::Address(a) => Some(a),
        _ => None,
    }
}

/// The record that a tuple of seven words decodes to.
pub open spec fn record_of_parts(ts: Seq<Token>) -> Option<Metadata> {
    if ts.len() == 7 && uint_of(ts[0]) is Some && address_of(ts[1]) is Some && uint_of(ts[2]) is Some
        && field_of(ts[3]) is Some && uint_of(ts[4]) is Some && uint_of(ts[5]) is Some
        && uint_of(ts[6]) is Some {
        Some(Metadata {
            token_id: uint_of(ts[0])->0,
            owner: address_of(ts[1])->0,
            parent_id: uint_of(ts[2])->0,
            field: field_of(ts[3])->0,
            locked_fuel: uint_of(ts[4])->0,
            minimum_price: uint_of(ts[5])->0,
            layer: uint_of(ts[6])->0,
        })
    } else {
        None
    }
}

pub open spec fn record_of(t: Token) -> Option<Metadata> {
    match t {
        Token::Tuple(ts) => record_of_parts(ts@),
        _ => None,
    }
}

fn uint_token(v: u128) -> (r: Token)
    ensures
        r == Token::Uint(Word { high: 0, low: v }),
{
    Token::Uint(Word::from_u128(v))
}

impl Metadata {
    pub fn from_token(token: &Token) -> (r: Result<Metadata, DecodeError>)
        ensures
            r == (match record_of(*token) { Some(m) => Ok(m), None => Err(DecodeError) }),
    {
        match token {
            Token::Tuple(ts) => {
                if ts.len() != 7 {
                    return Err(DecodeError);
                }
                let token_id = decode_uint(&ts[0])?;
                let owner = match &ts[1] {
                    Token::Address(a) => *a,
                    _ => return Err(DecodeError),
                };
                let parent_id = decode_uint(&ts[2])?;
                let field = Field::from_token(&ts[3])?;
                let locked_fuel = decode_uint(&ts[4])?;
                let minimum_price = decode_uint(&ts[5])?;
                let layer = decode_uint(&ts[6])?;
                Ok(Metadata { token_id, owner, parent_id, field, locked_fuel, minimum_price, layer })
            },
            _ => Err(DecodeError),
        }
    }

    pub fn into_token(&self) -> (r: Token)
        ensures
            r matches Token::Tuple(ts) && ts@.len() == 7
                && ts@[0] == Token::Uint(Word { high: 0, low: self.token_id })
                && ts@[1] == Token::Address(self.owner)
                && ts@[2] == Token::Uint(Word { high: 0, low: self.parent_id })
                && (ts@[3] matches Token::Tuple(fs) && fs@ == field_parts(self.field))
                && ts@[4] == Token::Uint(Word { high: 0, low: self.locked_fuel })
                && ts@[5] == Token::Uint(Word { high: 0, low: self.minimum_price })
                && ts@[6] == Token::Uint(Word { high: 0, low: self.layer }),
            supported(self.field) ==> record_of(r) == Some(*self),
    {
        let mut ts: Vec<Token> = Vec::new();
        ts.push(uint_token(self.token_id));
        ts.push(Token::Address(self.owner));
        ts.push(uint_token(self.parent_id));
        ts.push(self.field.into_token());
        ts.push(uint_token(self.locked_fuel));
        ts.push(uint_token(self.minimum_price));
        ts.push(uint_token(self.layer));
        Token::Tuple(ts)
    }
}

} // verus!
