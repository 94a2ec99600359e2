//! The asset, its address, and the payloads that create and replace one.

use crate::validation::{check, names, Field, FieldErrorView, PayloadKind, ValidationErrors};
use uuid::Uuid;
use vstd::prelude::*;

verus! {

/// `uuid::Uuid`, the identifier of an asset. The library carries it through
/// and never looks inside.
#[verifier::external_type_specification]
#[verifier::external_body]
pub struct ExUuid(uuid::Uuid);

/// `Clone::clone` of `uuid::Uuid`. The type derives `Clone` and `Copy`, so the
/// clone is the value itself.
pub assume_specification[ <uuid::Uuid as Clone>::clone ](id: &Uuid) -> (copy: Uuid)
    ensures
        copy == *id,
;

/// Calls `uuid::Uuid::new_v4`, which draws the identifier from the system's
/// random source. Nothing is claimed of the value.
#[verifier::external_body]
pub(crate) fn random_id() -> Uuid {
    Uuid::new_v4()
}

/// A street address. It lives and dies with the asset that holds it.
#[derive(Clone, Debug, PartialEq, Eq)]
pub struct AddressRequest {
    pub street: String,
    pub city: String,
    pub state: String,
    pub zip: String,
}

/// An address with its texts as sequences of characters.
pub struct AddressView {
    pub street: Seq<char>,
    pub city: Seq<char>,
    pub state: Seq<char>,
    pub zip: Seq<char>,
}

impl View for AddressRequest {
    type V = AddressView;

    open spec fn view(&self) -> AddressView {
        AddressView {
            street: self.street@,
            city: self.city@,
            state: self.state@,
            zip: self.zip@,
        }
    }
}

impl AddressView {
    /// The address with every field empty.
    pub open spec fn empty() -> AddressView {
        AddressView {
            street: Seq::empty(),
            city: Seq::empty(),
            state: Seq::empty(),
            zip: Seq::empty(),
        }
    }

    /// The rules that the address breaks, in the order street, city, state,
    /// zip.
    pub open spec fn violations(self, kind: PayloadKind) -> Seq<FieldErrorView> {
        check(kind, Field::Street, self.street) + check(kind, Field::City, self.city) + check(
            kind,
            Field::State,
            self.state,
        ) + check(kind, Field::Zip, self.zip)
    }
}

impl Default for AddressRequest {
    fn default() -> (a: AddressRequest)
        ensures
            a@ == AddressView::empty(),
    {
        AddressRequest {
            street: String::new(),
            city: String::new(),
            state: String::new(),
            zip: String::new(),
        }
    }
}

/// The payload that creates an asset.
#[derive(Clone, Debug, PartialEq, Eq)]
pub struct AssetRequest {
    pub name: String,
    pub description: String,
    pub address: AddressRequest,
}

/// The payload that replaces an asset. It has the shape of `AssetRequest`.
#[derive(Clone, Debug, PartialEq, Eq)]
pub struct AssetUpdateRequest {
    pub name: String,
    pub description: String,
    pub address: AddressRequest,
}

/// What a payload of either kind says.
pub struct PayloadView {
    pub name: Seq<char>,
    pub description: Seq<char>,
    pub address: AddressView,
}

impl PayloadView {
    /// The rules that the payload breaks, in the order name, description,
    /// then those of the address.
    pub open spec fn violations(self, kind: PayloadKind) -> Seq<FieldErrorView> {
        check(kind, Field::Name, self.name) + check(kind, Field::Description, self.description)
            + self.address.violations(kind)
    }

    /// The text that the payload holds in `field`.
    pub open spec fn text(self, field: Field) -> Seq<char> {
        match field {
            Field::Name => self.name,
            Field::Description => self.description,
            Field::Street => self.address.street,
            Field::City => self.address.city,
            Field::State => self.address.state,
            Field::Zip => self.address.zip,
        }
    }

    /// Whether every field keeps its rule.
    pub open spec fn valid(self) -> bool {
        forall|field: Field| #[trigger] field.accepts(self.text(field).len())
    }

    /// The broken rules of a payload name a field exactly when the
    /// payload's text in that field is not accepted.
    pub proof fn lemma_violations_name_refused_fields(self, kind: PayloadKind, field: Field)
        ensures
            names(self.violations(kind), field) <==> !field.accepts(self.text(field).len()),
    {
        let all = self.violations(kind);
        if !field.accepts(self.text(field).len()) {
            self.lemma_refused_field_is_listed(kind, field);
        } else {
            assert forall|i: int| 0 <= i < all.len() implies (#[trigger] all[i]).field
                != field by {
                self.lemma_listed_field_is_refused(kind, i);
            }
        }
    }

    /// Every listed error belongs to a field whose text is not accepted,
    /// and carries that field's bounds, reason and text.
    pub proof fn lemma_listed_field_is_refused(self, kind: PayloadKind, i: int)
        requires
            0 <= i < self.violations(kind).len(),
        ensures
            ({
                let error = self.violations(kind)[i];
                &&& !error.field.accepts(self.text(error.field).len())
                &&& error.value == self.text(error.field)
                &&& error.bounds == error.field.spec_bounds()
                &&& error.message == error.field.spec_message(kind)
            }),
    {
    }

    /// A field whose text is not accepted is listed, with that text.
    pub proof fn lemma_refused_field_is_listed(self, kind: PayloadKind, field: Field)
        requires
            !field.accepts(self.text(field).len()),
        ensures
            exists|i: int|
                0 <= i < self.violations(kind).len() && (#[trigger] self.violations(kind)[i]).field
                    == field && self.violations(kind)[i].value == self.text(field),
    {
        let all = self.violations(kind);
        let before = match field {
            Field::Name => Seq::<FieldErrorView>::empty(),
            Field::Description => check(kind, Field::Name, self.name),
            Field::Street => check(kind, Field::Name, self.name) + check(
                kind,
                Field::Description,
                self.description,
            ),
            Field::City => check(kind, Field::Name, self.name) + check(
                kind,
                Field::Description,
                self.description,
            ) + check(kind, Field::Street, self.address.street),
            Field::State => check(kind, Field::Name, self.name) + check(
                kind,
                Field::Description,
                self.description,
            ) + check(kind, Field::Street, self.address.street) + check(
                kind,
                Field::City,
                self.address.city,
            ),
            Field::Zip => check(kind, Field::Name, self.name) + check(
                kind,
                Field::Description,
                self.description,
            ) + check(kind, Field::Street, self.address.street) + check(
                kind,
                Field::City,
                self.address.city,
            ) + check(kind, Field::State, self.address.state),
        };
        let at = before.len() as int;
        assert(0 <= at < all.len());
        assert(all[at].field == field && all[at].value == self.text(field));
    }

    /// A payload is valid exactly when it breaks no rule.
    pub proof fn lemma_valid_iff_no_violation(self, kind: PayloadKind)
        ensures
            self.valid() <==> self.violations(kind).len() == 0,
    {
        if self.violations(kind).len() == 0 {
            assert forall|field: Field| #[trigger]
                field.accepts(self.text(field).len()) by {
                if !field.accepts(self.text(field).len()) {
                    self.lemma_refused_field_is_listed(kind, field);
                }
            }
        } else {
            self.lemma_listed_field_is_refused(kind, 0);
        }
    }
}

impl View for AssetRequest {
    type V = PayloadView;

    open spec fn view(&self) -> PayloadView {
        PayloadView { name: self.name@, description: self.description@, address: self.address@ }
    }
}

impl View for AssetUpdateRequest {
    type V = PayloadView;

    open spec fn view(&self) -> PayloadView {
        PayloadView { name: self.name@, description: self.description@, address: self.address@ }
    }
}

/// A stored asset.
#[derive(Clone, Debug, PartialEq, Eq)]
pub struct Asset {
    pub id: Uuid,
    pub name: String,
    pub description: String,
    pub address: AddressRequest,
}

/// What an asset says.
pub struct AssetView {
    pub id: Uuid,
    pub name: Seq<char>,
    pub description: Seq<char>,
    pub address: AddressView,
}

impl View for Asset {
    type V = AssetView;

    open spec fn view(&self) -> AssetView {
        AssetView {
            id: self.id,
            name: self.name@,
            description: self.description@,
            address: self.address@,
        }
    }
}

impl AssetView {
    /// The asset that `payload` describes under the identifier `id`.
    pub open spec fn of(id: Uuid, payload: PayloadView) -> AssetView {
        AssetView {
            id,
            name: payload.name,
            description: payload.description,
            address: payload.address,
        }
    }
}

impl AddressRequest {
    /// Checks the four fields and records each broken rule in `errors`.
    pub fn check_into(&self, kind: PayloadKind, errors: &mut ValidationErrors)
        ensures
            final(errors)@ == old(errors)@ + self@.violations(kind),
    {
        errors.check_field(kind, Field::Street, &self.street);
        errors.check_field(kind, Field::City, &self.city);
        errors.check_field(kind, Field::State, &self.state);
        errors.check_field(kind, Field::Zip, &self.zip);
        assert(errors@ =~= old(errors)@ + self@.violations(kind));
    }

    /// Accepts the address when street has at least 3 characters, city at
    /// least 2, state exactly 2 and zip exactly 5; else returns every
    /// broken rule.
    pub fn validate(&self) -> (r: Result<(), ValidationErrors>)
        ensures
            r is Ok <==> self@.violations(PayloadKind::Create).len() == 0,
            r matches Err(e) ==> e@ == self@.violations(PayloadKind::Create),
    {
        let mut errors = ValidationErrors::new();
        self.check_into(PayloadKind::Create, &mut errors);
        assert(errors@ =~= self@.violations(PayloadKind::Create));
        if errors.is_empty() {
            Ok(())
        } else {
            Err(errors)
        }
    }
}

/// Checks the fields of a payload of kind `kind` in their order and gives
/// back every broken rule, or `Ok` where there is none.
fn validate_payload(
    kind: PayloadKind,
    name: &String,
    description: &String,
    address: &AddressRequest,
) -> (r: Result<(), ValidationErrors>)
    ensures
        ({
            let payload = PayloadView { name: name@, description: description@, address: address@ };
            &&& r is Ok <==> payload.violations(kind).len() == 0
            &&& r matches Err(e) ==> e@ == payload.violations(kind)
        }),
{
    let mut errors = ValidationErrors::new();
    errors.check_field(kind, Field::Name, name);
    errors.check_field(kind, Field::Description, description);
    address.check_into(kind, &mut errors);
    assert(errors@ =~= (PayloadView {
        name: name@,
        description: description@,
        address: address@,
    }).violations(kind));
    if errors.is_empty() {
        Ok(())
    } else {
        Err(errors)
    }
}

impl AssetRequest {
    /// Accepts the payload when every field keeps its rule; else returns
    /// every broken rule, in the order of the fields.
    pub fn validate(&self) -> (r: Result<(), ValidationErrors>)
        ensures
            r is Ok <==> self@.violations(PayloadKind::Create).len() == 0,
            r matches Err(e) ==> e@ == self@.violations(PayloadKind::Create),
    {
        validate_payload(PayloadKind::Create, &self.name, &self.description, &self.address)
    }
}

impl AssetUpdateRequest {
    /// Accepts the payload when every field keeps its rule; else returns
    /// every broken rule, in the order of the fields.
    pub fn validate(&self) -> (r: Result<(), ValidationErrors>)
        ensures
            r is Ok <==> self@.violations(PayloadKind::Update).len() == 0,
            r matches Err(e) ==> e@ == self@.violations(PayloadKind::Update),
    {
        validate_payload(PayloadKind::Update, &self.name, &self.description, &self.address)
    }
}

impl Asset {
    /// The asset that a creating payload describes, under `id`.
    pub fn from_request(id: Uuid, payload: AssetRequest) -> (asset: Asset)
        ensures
            asset@ == AssetView::of(id, payload@),
    {
        Asset {
            id,
            name: payload.name,
            description: payload.description,
            address: payload.address,
        }
    }

    /// The asset that a replacing payload describes, under `id`.
    pub fn from_update(id: Uuid, payload: AssetUpdateRequest) -> (asset: Asset)
        ensures
            asset@ == AssetView::of(id, payload@),
    {
        Asset {
            id,
            name: payload.name,
            description: payload.description,
            address: payload.address,
        }
    }
}

} // verus!
