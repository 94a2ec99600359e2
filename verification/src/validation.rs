//! Length rules for the text fields of a payload, and the record of the
//! rules that a payload breaks.

use vstd::prelude::*;

verus! {

/// Bounds on the number of characters of a text.
///
/// When `equal` is set, `min` and `max` are not looked at.
#[derive(Clone, Copy, Debug, PartialEq, Eq)]
pub struct LengthBounds {
    pub min: Option<u64>,
    pub max: Option<u64>,
    pub equal: Option<u64>,
}

impl LengthBounds {
    /// Whether a text of `len` characters lies within the bounds.
    pub open spec fn admits(self, len: nat) -> bool {
        match self.equal {
            Some(eq) => len == eq,
            None => {
                &&& (self.min matches Some(m) ==> len >= m)
                &&& (self.max matches Some(m) ==> len <= m)
            },
        }
    }

    /// At least `min` characters.
    pub fn at_least(min: u64) -> (b: LengthBounds)
        ensures
            b == (LengthBounds { min: Some(min), max: None, equal: None }),
    {
        LengthBounds { min: Some(min), max: None, equal: None }
    }

    /// Exactly `len` characters.
    pub fn exactly(len: u64) -> (b: LengthBounds)
        ensures
            b == (LengthBounds { min: None, max: None, equal: Some(len) }),
    {
        LengthBounds { min: None, max: None, equal: Some(len) }
    }

    /// Between `min` and `max` characters, both included.
    pub fn between(min: u64, max: u64) -> (b: LengthBounds)
        ensures
            b == (LengthBounds { min: Some(min), max: Some(max), equal: None }),
    {
        LengthBounds { min: Some(min), max: Some(max), equal: None }
    }
}

/// Calls `validator::validate_length` on a string slice.
///
/// The outside function counts the characters of the slice (not its bytes)
/// and compares the count with `equal` alone when it is set, else with
/// `min` and `max` where they are set. The contract says exactly that, with
/// the count taken as the length of the slice's view.
#[verifier::external_body]
pub(crate) fn length_within(value: &str, bounds: LengthBounds) -> (ok: bool)
    ensures
        ok == bounds.admits(value@.len()),
{
    validator::validate_length(value, bounds.min, bounds.max, bounds.equal)
}

/// The text fields of a payload that carry a rule.
#[derive(Clone, Copy, Debug, PartialEq, Eq, Structural)]
pub enum Field {
    Name,
    Description,
    Street,
    City,
    State,
    Zip,
}

/// The kind of payload a rule set belongs to. The two kinds share their
/// bounds and differ in the reasons they give.
#[derive(Clone, Copy, Debug, PartialEq, Eq, Structural)]
pub enum PayloadKind {
    Create,
    Update,
}

impl Field {
    /// The key of the field in a payload.
    pub open spec fn spec_key(self) -> Seq<char> {
        match self {
            Field::Name => "name"@,
            Field::Description => "description"@,
            Field::Street => "street"@,
            Field::City => "city"@,
            Field::State => "state"@,
            Field::Zip => "zip"@,
        }
    }

    /// Whether the field lies inside the payload's `address` object.
    pub open spec fn spec_in_address(self) -> bool {
        self == Field::Street || self == Field::City || self == Field::State || self == Field::Zip
    }

    /// The bounds on the field's length.
    pub open spec fn spec_bounds(self) -> LengthBounds {
        match self {
            Field::Name => LengthBounds { min: Some(1), max: None, equal: None },
            Field::Description => LengthBounds { min: Some(5), max: None, equal: None },
            Field::Street => LengthBounds { min: Some(3), max: None, equal: None },
            Field::City => LengthBounds { min: Some(2), max: None, equal: None },
            Field::State => LengthBounds { min: None, max: None, equal: Some(2) },
            Field::Zip => LengthBounds { min: Some(5), max: Some(5), equal: None },
        }
    }

    /// The reason given when the field breaks its rule, where the payload
    /// kind has one for it.
    pub open spec fn spec_message(self, kind: PayloadKind) -> Option<Seq<char>> {
        match self {
            Field::Name => if kind == PayloadKind::Create {
                Some("Name cannot be empty"@)
            } else {
                None
            },
            Field::Description => if kind == PayloadKind::Create {
                Some("Description must be at least 5 chars"@)
            } else {
                None
            },
            Field::Street => None,
            Field::City => None,
            Field::State => Some("State must be exactly 2 chars"@),
            Field::Zip => Some("ZIP must be 5 digits"@),
        }
    }

    /// Whether a text of `len` characters is accepted in this field.
    pub open spec fn accepts(self, len: nat) -> bool {
        self.spec_bounds().admits(len)
    }

    pub fn key(&self) -> (k: &'static str)
        ensures
            k@ == self.spec_key(),
    {
        match self {
            Field::Name => "name",
            Field::Description => "description",
            Field::Street => "street",
            Field::City => "city",
            Field::State => "state",
            Field::Zip => "zip",
        }
    }

    pub fn in_address(&self) -> (b: bool)
        ensures
            b == self.spec_in_address(),
    {
        match self {
            Field::Name => false,
            Field::Description => false,
            _ => true,
        }
    }

    pub fn bounds(&self) -> (b: LengthBounds)
        ensures
            b == self.spec_bounds(),
    {
        match self {
            Field::Name => LengthBounds::at_least(1),
            Field::Description => LengthBounds::at_least(5),
            Field::Street => LengthBounds::at_least(3),
            Field::City => LengthBounds::at_least(2),
            Field::State => LengthBounds::exactly(2),
            Field::Zip => LengthBounds::between(5, 5),
        }
    }

    pub fn message(&self, kind: PayloadKind) -> (m: Option<&'static str>)
        ensures
            text_of(m) == self.spec_message(kind),
    {
        match self {
            Field::Name => match kind {
                PayloadKind::Create => Some("Name cannot be empty"),
                PayloadKind::Update => None,
            },
            Field::Description => match kind {
                PayloadKind::Create => Some("Description must be at least 5 chars"),
                PayloadKind::Update => None,
            },
            Field::Street => None,
            Field::City => None,
            Field::State => Some("State must be exactly 2 chars"),
            Field::Zip => Some("ZIP must be 5 digits"),
        }
    }
}

/// The rules in plain words: a name has at least 1 character, a
/// description at least 5, a street at least 3, a city at least 2, a state
/// exactly 2 and a zip exactly 5.
pub proof fn lemma_field_rules(len: nat)
    ensures
        Field::Name.accepts(len) <==> len >= 1,
        Field::Description.accepts(len) <==> len >= 5,
        Field::Street.accepts(len) <==> len >= 3,
        Field::City.accepts(len) <==> len >= 2,
        Field::State.accepts(len) <==> len == 2,
        Field::Zip.accepts(len) <==> len == 5,
{
}

/// The characters of an optional text.
pub open spec fn text_of(m: Option<&'static str>) -> Option<Seq<char>> {
    match m {
        Some(s) => Some(s@),
        None => None,
    }
}

/// One broken rule: the field, its bounds, the reason where there is one,
/// and the text that was refused.
#[derive(Clone, Debug, PartialEq, Eq)]
pub struct FieldError {
    pub field: Field,
    pub bounds: LengthBounds,
    pub message: Option<&'static str>,
    pub value: String,
}

/// What a `FieldError` says, with texts as sequences of characters.
pub struct FieldErrorView {
    pub field: Field,
    pub bounds: LengthBounds,
    pub message: Option<Seq<char>>,
    pub value: Seq<char>,
}

impl View for FieldError {
    type V = FieldErrorView;

    open spec fn view(&self) -> FieldErrorView {
        FieldErrorView {
            field: self.field,
            bounds: self.bounds,
            message: text_of(self.message),
            value: self.value@,
        }
    }
}

impl FieldError {
    /// The code of the rule that was broken. Every rule is a length rule.
    pub fn code(&self) -> (c: &'static str)
        ensures
            c@ == "length"@,
    {
        "length"
    }
}

/// The error that `field` of a payload of kind `kind` gives for `value`:
/// none when the value is accepted, one otherwise.
pub open spec fn check(kind: PayloadKind, field: Field, value: Seq<char>) -> Seq<FieldErrorView> {
    if field.accepts(value.len()) {
        Seq::empty()
    } else {
        seq![
            FieldErrorView {
                field,
                bounds: field.spec_bounds(),
                message: field.spec_message(kind),
                value,
            },
        ]
    }
}

/// The broken rules of a payload, in the order of its fields.
#[derive(Clone, Debug, PartialEq, Eq)]
pub struct ValidationErrors {
    pub errors: Vec<FieldError>,
}

impl View for ValidationErrors {
    type V = Seq<FieldErrorView>;

    open spec fn view(&self) -> Seq<FieldErrorView> {
        Seq::new(self.errors@.len(), |i: int| self.errors@[i]@)
    }
}

/// Whether some error in `errors` names `field`.
pub open spec fn names(errors: Seq<FieldErrorView>, field: Field) -> bool {
    exists|i: int| 0 <= i < errors.len() && (#[trigger] errors[i]).field == field
}

impl ValidationErrors {
    pub fn new() -> (e: ValidationErrors)
        ensures
            e@ == Seq::<FieldErrorView>::empty(),
    {
        ValidationErrors { errors: Vec::new() }
    }

    pub fn is_empty(&self) -> (b: bool)
        ensures
            b == (self@.len() == 0),
    {
        self.errors.len() == 0
    }

    /// Whether some error names `field`.
    pub fn has_error(&self, field: Field) -> (b: bool)
        ensures
            b == names(self@, field),
    {
        let mut i: usize = 0;
        while i < self.errors.len()
            invariant
                i <= self.errors.len(),
                forall|j: int| 0 <= j < i ==> (#[trigger] self@[j]).field != field,
            decreases self.errors.len() - i,
        {
            if self.errors[i].field == field {
                assert(self@[i as int].field == field);
                return true;
            }
            i += 1;
        }
        false
    }

    /// Checks `value` against the rule of `field` and records the error if
    /// the rule is broken.
    pub fn check_field(&mut self, kind: PayloadKind, field: Field, value: &String)
        ensures
            final(self)@ == old(self)@ + check(kind, field, value@),
    {
        if !length_within(value.as_str(), field.bounds()) {
            let error = FieldError {
                field,
                bounds: field.bounds(),
                message: field.message(kind),
                value: value.clone(),
            };
            self.errors.push(error);
            assert(self@ =~= old(self)@ + check(kind, field, value@));
        } else {
            assert(self@ =~= old(self)@ + check(kind, field, value@));
        }
    }
}

} // verus!
