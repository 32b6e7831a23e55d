use vstd::prelude::*;

verus! {

/// Number of bands in the equalizer.
pub const BAND_COUNT: usize = 4;

/// Number of parameters that each band owns.
pub const PARAMS_PER_BAND: usize = 5;

/// One of the five parameters of a band, in the order of the flat list.
#[derive(PartialEq, Eq, Structural, Debug, Clone, Copy)]
pub enum BandField {
    Kind,
    Freq,
    DbGain,
    QValue,
    Mode,
}

/// Where a flat parameter index points: a band and one of its parameters.
#[derive(PartialEq, Eq, Structural, Debug, Clone, Copy)]
pub struct ParamSlot {
    pub band: usize,
    pub field: BandField,
}

/// Length of the flat parameter list.
pub open spec fn param_count() -> int {
    BAND_COUNT * PARAMS_PER_BAND
}

/// The field at position `k` within a band.
pub open spec fn field_at(k: int) -> BandField {
    if k == 0 {
        BandField::Kind
    } else if k == 1 {
        BandField::Freq
    } else if k == 2 {
        BandField::DbGain
    } else if k == 3 {
        BandField::QValue
    } else {
        BandField::Mode
    }
}

/// Position of a field within its band.
pub open spec fn field_offset(f: BandField) -> int {
    match f {
        BandField::Kind => 0,
        BandField::Freq => 1,
        BandField::DbGain => 2,
        BandField::QValue => 3,
        BandField::Mode => 4,
    }
}

/// A slot names an existing parameter when its band exists.
pub open spec fn slot_valid(s: ParamSlot) -> bool {
    s.band < BAND_COUNT
}

/// The slot of a flat index: band-major, then field order.
pub open spec fn slot_at(i: int) -> ParamSlot {
    ParamSlot { band: (i / PARAMS_PER_BAND as int) as usize, field: field_at(i % PARAMS_PER_BAND as int) }
}

/// The flat index of a slot.
pub open spec fn index_at(s: ParamSlot) -> int {
    s.band * PARAMS_PER_BAND + field_offset(s.field)
}

/// The word that ends a parameter's name.
pub open spec fn field_label(f: BandField) -> Seq<char> {
    match f {
        BandField::Kind => "Type"@,
        BandField::Freq => "hz"@,
        BandField::DbGain => "dB"@,
        BandField::QValue => "Q Value"@,
        BandField::Mode => "mode"@,
    }
}

/// The decimal digit of a small number.
pub open spec fn digit_char(n: int) -> char {
    (('0' as int) + n) as char
}

/// Name of the parameter in a slot: "Band", the band's number counted
/// from one, and the field's label.
pub open spec fn slot_name(s: ParamSlot) -> Seq<char> {
    "Band "@ + seq![digit_char(s.band + 1)] + " "@ + field_label(s.field)
}

impl BandField {
    /// The field at position `k` within a band.
    pub fn from_offset(k: usize) -> (r: BandField)
        requires
            k < PARAMS_PER_BAND,
        ensures
            r == field_at(k as int),
            field_offset(r) == k,
    {
        match k {
            0 => BandField::Kind,
            1 => BandField::Freq,
            2 => BandField::DbGain,
            3 => BandField::QValue,
            _ => BandField::Mode,
        }
    }

    /// Position of the field within its band.
    pub fn offset(&self) -> (r: usize)
        ensures
            r == field_offset(*self),
            r < PARAMS_PER_BAND,
    {
        match self {
            BandField::Kind => 0,
            BandField::Freq => 1,
            BandField::DbGain => 2,
            BandField::QValue => 3,
            BandField::Mode => 4,
        }
    }

    /// The word that ends the parameter's name.
    pub fn label(&self) -> (r: String)
        ensures
            r@ == field_label(*self),
    {
        let s: &str = match self {
            BandField::Kind => "Type",
            BandField::Freq => "hz",
            BandField::DbGain => "dB",
            BandField::QValue => "Q Value",
            BandField::Mode => "mode",
        };
        s.to_string()
    }
}

/// Length of the flat parameter list: five per band.
pub fn count() -> (r: usize)
    ensures
        r == param_count(),
{
    BAND_COUNT * PARAMS_PER_BAND
}

/// The slot that a flat index addresses, or `None` for an index outside the
/// list (negative ones included).
pub fn slot_of(index: i32) -> (r: Option<ParamSlot>)
    ensures
        r is Some <==> 0 <= index < param_count(),
        r is Some ==> r->0 == slot_at(index as int) && slot_valid(r->0),
{
    if index < 0 {
        return None;
    }
    let i = index as usize;
    if i >= BAND_COUNT * PARAMS_PER_BAND {
        return None;
    }
    Some(ParamSlot { band: i / PARAMS_PER_BAND, field: BandField::from_offset(i % PARAMS_PER_BAND) })
}

/// The flat index of a slot.
pub fn index_of(slot: ParamSlot) -> (r: i32)
    requires
        slot_valid(slot),
    ensures
        r == index_at(slot),
{
    (slot.band * PARAMS_PER_BAND + slot.field.offset()) as i32
}

/// Name of the parameter in a slot.
pub fn slot_name_of(slot: ParamSlot) -> (r: String)
    requires
        slot_valid(slot),
    ensures
        r@ == slot_name(slot),
{
    let digit: &str = match slot.band {
        0 => "1",
        1 => "2",
        2 => "3",
        _ => "4",
    };
    let mut name = "Band ".to_string();
    name.append(digit);
    name.append(" ");
    name.append(slot.field.label().as_str());
    proof {
        reveal_strlit("1");
        reveal_strlit("2");
        reveal_strlit("3");
        reveal_strlit("4");
        assert(digit@ =~= seq![digit_char(slot.band + 1)]);
    }
    name
}

/// Name of the parameter at a flat index; the empty string outside the list.
pub fn parameter_name(index: i32) -> (r: String)
    ensures
        0 <= index < param_count() ==> r@ == slot_name(slot_at(index as int)),
        !(0 <= index < param_count()) ==> r@ == Seq::<char>::empty(),
{
    match slot_of(index) {
        Some(slot) => slot_name_of(slot),
        None => String::new(),
    }
}

/// Every index of the list addresses a valid slot, and going to the slot and
/// back gives the index again.
pub proof fn lemma_index_slot_round_trip(i: int)
    requires
        0 <= i < param_count(),
    ensures
        slot_valid(slot_at(i)),
        index_at(slot_at(i)) == i,
{
}

/// Every valid slot has an index inside the list, and going to the index and
/// back gives the slot again.
pub proof fn lemma_slot_index_round_trip(s: ParamSlot)
    requires
        slot_valid(s),
    ensures
        0 <= index_at(s) < param_count(),
        slot_at(index_at(s)) == s,
{
}

} // verus!
