//! The display document served for a token, derived from its on-chain record.
use vstd::prelude::*;
use vstd::string::StringExecFns;
use crate::evm::types::{fixed_of, supported, Field, Fixed, Metadata};

verus! {

/// Iteration budget handed to the renderer for every token.
pub const MAX_ITERATIONS: u64 = 1360;

/// An attribute's value.
#[derive(Clone, Debug, PartialEq, Eq)]
pub enum Value {
    Int(u64),
    String(String),
    /// A fixed-point decimal in units of 10^-18.
    Fixed(u128),
    /// The zoom depth of a region whose smaller side has this extent, in units of
    /// 10^-18. Its numeric value is the logarithm to base 1/2 of a quarter of the
    /// extent, so an extent of one unit of the plane has depth 2.
    Depth(Fixed),
}

#[derive(Clone, Debug, PartialEq, Eq)]
pub struct Attribute {
    pub display_type: String,
    pub trait_type: String,
    pub value: Value,
}

#[derive(Clone, Debug, PartialEq, Eq)]
pub struct DisplayMetadata {
    pub image: String,
    pub external_url: String,
    pub attributes: Vec<Attribute>,
}

/// What the renderer is asked to draw for a token.
#[derive(Clone, Debug, PartialEq, Eq)]
pub struct RenderRequest {
    pub path: String,
    pub field: Field,
    pub max_iterations: u64,
}

pub open spec fn digit_char(d: nat) -> char {
    if d == 0 { '0' } else if d == 1 { '1' } else if d == 2 { '2' } else if d == 3 { '3' }
    else if d == 4 { '4' } else if d == 5 { '5' } else if d == 6 { '6' } else if d == 7 { '7' }
    else if d == 8 { '8' } else { '9' }
}

/// The decimal digits of `n`, without leading zeros.
pub open spec fn decimal(n: nat) -> Seq<char>
    decreases n,
{
    if n < 10 {
        seq![digit_char(n)]
    } else {
        decimal(n / 10).push(digit_char(n % 10))
    }
}

fn digit_str(d: u64) -> (r: &'static str)
    requires
        d < 10,
    ensures
        r@ == seq![digit_char(d as nat)],
{
    proof {
        reveal_strlit("0"); reveal_strlit("1"); reveal_strlit("2"); reveal_strlit("3");
        reveal_strlit("4"); reveal_strlit("5"); reveal_strlit("6"); reveal_strlit("7");
        reveal_strlit("8"); reveal_strlit("9");
    }
    if d == 0 { "0" } else if d == 1 { "1" } else if d == 2 { "2" } else if d == 3 { "3" }
    else if d == 4 { "4" } else if d == 5 { "5" } else if d == 6 { "6" } else if d == 7 { "7" }
    else if d == 8 { "8" } else { "9" }
}

/// Appends the decimal digits of `n` to `s`.
pub fn push_decimal(s: &mut String, n: u64)
    ensures
        final(s)@ == old(s)@ + decimal(n as nat),
    decreases n,
{
    if n >= 10 {
        push_decimal(s, n / 10);
    }
    s.append(digit_str(n % 10));
}

/// The artifact path of a token's image.
pub open spec fn image_path(id: u64) -> Seq<char> {
    "images/"@ + decimal(id as nat) + ".png"@
}

pub fn image_path_of(id: u64) -> (r: String)
    ensures
        r@ == image_path(id),
{
    let mut s = String::from_str("images/");
    push_decimal(&mut s, id);
    s.append(".png");
    s
}

fn difference(a: Fixed, b: Fixed) -> (r: Fixed)
    requires
        -0x1_0000_0000_0000_0000_0000_0000_0000_0000 < a.value() - b.value() < 0x1_0000_0000_0000_0000_0000_0000_0000_0000,
    ensures
        r == fixed_of(a.value() - b.value()),
{
    if !a.negative && !b.negative {
        if a.magnitude >= b.magnitude {
            Fixed { negative: false, magnitude: a.magnitude - b.magnitude }
        } else {
            Fixed { negative: true, magnitude: b.magnitude - a.magnitude }
        }
    } else if !a.negative {
        Fixed { negative: false, magnitude: a.magnitude + b.magnitude }
    } else if !b.negative {
        let m = a.magnitude + b.magnitude;
        Fixed { negative: m != 0, magnitude: m }
    } else if b.magnitude >= a.magnitude {
        Fixed { negative: false, magnitude: b.magnitude - a.magnitude }
    } else {
        Fixed { negative: true, magnitude: a.magnitude - b.magnitude }
    }
}

fn at_most(a: Fixed, b: Fixed) -> (r: bool)
    ensures
        r == (a.value() <= b.value()),
{
    if a.negative && b.negative {
        a.magnitude >= b.magnitude
    } else if a.negative {
        true
    } else if b.negative {
        a.magnitude == 0 && b.magnitude == 0
    } else {
        a.magnitude <= b.magnitude
    }
}

/// The smaller of a field's width and height.
pub open spec fn smaller_extent(f: Field) -> Fixed {
    let w = f.x_max.value() - f.x_min.value();
    let h = f.y_max.value() - f.y_min.value();
    fixed_of(if w <= h { w } else { h })
}

pub fn smaller_extent_of(f: &Field) -> (r: Fixed)
    requires
        supported(*f),
    ensures
        r == smaller_extent(*f),
        r.canonical(),
{
    let w = difference(f.x_max, f.x_min);
    let h = difference(f.y_max, f.y_min);
    if at_most(w, h) { w } else { h }
}

pub open spec fn is_attribute(a: Attribute, trait_type: Seq<char>, value: Value) -> bool {
    a.display_type@ == "number"@ && a.trait_type@ == trait_type && a.value == value
}

/// `m` is the document served for token `id` with record `record`.
pub open spec fn describes(
    m: DisplayMetadata,
    id: u64,
    record: Metadata,
    metadata_host: Seq<char>,
    dapp_host: Seq<char>,
) -> bool {
    &&& m.image@ == metadata_host + "/"@ + image_path(id)
    &&& m.external_url@ == dapp_host + "/tokens/"@ + decimal(id as nat)
    &&& m.attributes@.len() == 4
    &&& is_attribute(m.attributes@[0], "Parent NFT Id"@, Value::Int(record.parent_id as u64))
    &&& is_attribute(m.attributes@[1], "Locked FUEL"@, Value::Fixed(record.locked_fuel))
    &&& is_attribute(m.attributes@[2], "Layer"@, Value::Int(record.layer as u64))
    &&& is_attribute(m.attributes@[3], "Depth"@, Value::Depth(smaller_extent(record.field)))
}

fn number_attribute(trait_type: &str, value: Value) -> (r: Attribute)
    ensures
        is_attribute(r, trait_type@, value),
{
    proof { reveal_strlit("number"); }
    Attribute { display_type: String::from_str("number"), trait_type: String::from_str(trait_type), value }
}

/// Builds the document of token `id` from its record: the image under the metadata
/// host, the token page under the application host, and four numeric attributes.
/// A parent id or layer of 2^64 or more is cut to its low 64 bits, the width of
/// the attribute's type.
pub fn build_display(id: u64, record: &Metadata, metadata_host: &str, dapp_host: &str) -> (r: DisplayMetadata)
    requires
        supported(record.field),
    ensures
        describes(r, id, *record, metadata_host@, dapp_host@),
{
    proof {
        reveal_strlit("/");
        reveal_strlit("/tokens/");
        reveal_strlit("Parent NFT Id");
        reveal_strlit("Locked FUEL");
        reveal_strlit("Layer");
        reveal_strlit("Depth");
    }
    let path = image_path_of(id);
    let mut image = String::from_str(metadata_host);
    image.append("/");
    image.append(path.as_str());
    let mut external_url = String::from_str(dapp_host);
    external_url.append("/tokens/");
    push_decimal(&mut external_url, id);
    let mut attributes: Vec<Attribute> = Vec::new();
    attributes.push(number_attribute("Parent NFT Id", Value::Int(record.parent_id as u64)));
    attributes.push(number_attribute("Locked FUEL", Value::Fixed(record.locked_fuel)));
    attributes.push(number_attribute("Layer", Value::Int(record.layer as u64)));
    attributes.push(number_attribute("Depth", Value::Depth(smaller_extent_of(&record.field))));
    DisplayMetadata { image, external_url, attributes }
}

/// The render request for token `id`: its artifact path, its region and the fixed
/// iteration budget.
pub fn render_request(id: u64, record: &Metadata) -> (r: RenderRequest)
    ensures
        r.path@ == image_path(id),
        r.field == record.field,
        r.max_iterations == MAX_ITERATIONS,
{
    RenderRequest { path: image_path_of(id), field: record.field, max_iterations: MAX_ITERATIONS }
}

/// Two documents are the same to a reader: equal URLs, and attributes equal one by one.
pub open spec fn same_document(a: DisplayMetadata, b: DisplayMetadata) -> bool {
    &&& a.image@ == b.image@
    &&& a.external_url@ == b.external_url@
    &&& a.attributes@.len() == b.attributes@.len()
    &&& forall|i: int| 0 <= i < a.attributes@.len() ==> {
        &&& #[trigger] a.attributes@[i].display_type@ == b.attributes@[i].display_type@
        &&& a.attributes@[i].trait_type@ == b.attributes@[i].trait_type@
        &&& a.attributes@[i].value == b.attributes@[i].value
    }
}

/// Two documents that describe one token's record are the same document.
pub proof fn lemma_describes_unique(
    a: DisplayMetadata,
    b: DisplayMetadata,
    id: u64,
    record: Metadata,
    metadata_host: Seq<char>,
    dapp_host: Seq<char>,
)
    requires
        describes(a, id, record, metadata_host, dapp_host),
        describes(b, id, record, metadata_host, dapp_host),
    ensures
        same_document(a, b),
{
    assert forall|i: int| 0 <= i < a.attributes@.len() implies {
        &&& #[trigger] a.attributes@[i].display_type@ == b.attributes@[i].display_type@
        &&& a.attributes@[i].trait_type@ == b.attributes@[i].trait_type@
        &&& a.attributes@[i].value == b.attributes@[i].value
    } by {
        assert(0 <= i < 4);
    }
}

} // verus!
