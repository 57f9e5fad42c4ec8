use vstd::prelude::*;

use crate::ddd::constant::ENTITY_ANONYMOUS;
use crate::ddd::value::{Val, ValView, str_eq, vview};

verus! {

broadcast use vstd::std_specs::vec::group_vec_axioms;

/// Model of an [`Entity`]: its id and name as character sequences.
pub struct EntityView {
    pub id: Seq<char>,
    pub name: Seq<char>,
}

/// Resource name in the style of Amazon Resource Names (ARN).
///
/// Implement this trait on any resource, such as a message, to encode its
/// metadata as colon- and slash-separated parts.
pub trait Arn {
    /// The full resource name.
    fn arn_string(&self) -> String;

    /// The name of the resource.
    fn arn_name(&self) -> String;
}

/// `Entity` defines the identity of a unique element: a unique id together
/// with a name that need not be unique.
#[derive(Debug, PartialEq, Eq, PartialOrd, Ord, Hash)]
pub struct Entity {
    /// Unique identifier of the entity.
    id: String,
    /// Name of the entity.
    name: String,
}

impl View for Entity {
    type V = EntityView;

    closed spec fn view(&self) -> EntityView {
        EntityView { id: self.id@, name: self.name@ }
    }
}

/// Relies on `uuid::Uuid::new_v4` and uuid's `Display`: the canonical
/// hyphenated rendering of a fresh random version-4 UUID, 36 characters long.
/// Nothing more is assumed of the result: it is random.
#[verifier::external_body]
pub(crate) fn fresh_uuid_string() -> (r: String)
    ensures
        r@.len() == 36,
{
    uuid::Uuid::new_v4().to_string()
}

impl Entity {
    /// Constructs a new `Entity` from the given id and name.
    ///
    /// Any strings are accepted; keeping the id unique and both parts
    /// non-empty is the caller's contract.
    pub fn new(id: String, name: String) -> (r: Entity)
        ensures
            r@.id == id@,
            r@.name == name@,
    {
        Entity { id, name }
    }

    /// Constructs a new `Entity` from the given name; the id is a freshly
    /// generated random unique identifier.
    pub fn from_name(name: String) -> (r: Entity)
        ensures
            r@.name == name@,
            r@.id.len() == 36,
    {
        Entity { id: fresh_uuid_string(), name }
    }

    /// The unique id of the `Entity`.
    pub fn id(&self) -> (r: String)
        ensures
            r@ == self@.id,
    {
        self.id.clone()
    }

    /// The name of the `Entity`.
    pub fn name(&self) -> (r: String)
        ensures
            r@ == self@.name,
    {
        self.name.clone()
    }

    /// Renders the entity as `"{name}:{id}"`.
    pub fn display_string(&self) -> (r: String)
        ensures
            r@ == self@.name + ":"@ + self@.id,
    {
        let mut s = self.name.clone();
        s.append(":");
        s.append(self.id.as_str());
        s
    }
}

/// An entity rendered as a structured value: an object with an `"id"` and
/// a `"name"` field, in that order. The field names and nesting are part of
/// the externally visible contract of any consumer persisting or
/// transmitting entities.
pub open spec fn entity_value_view(e: EntityView) -> ValView {
    ValView::Obj(seq![("id"@, ValView::Str(e.id)), ("name"@, ValView::Str(e.name))])
}

/// The entity a structured value stands for, if it has the shape that
/// [`entity_value_view`] produces.
pub open spec fn entity_of_value(v: ValView) -> Option<EntityView> {
    match v {
        ValView::Obj(o) => {
            if o.len() == 2 && o[0].0 == "id"@ && o[0].1 is Str && o[1].0 == "name"@ && o[1].1
                is Str {
                Some(EntityView { id: o[0].1->Str_0, name: o[1].1->Str_0 })
            } else {
                None
            }
        },
        _ => None,
    }
}

/// Decoding an encoded entity gives the entity back: the structured-value
/// rendering loses nothing.
pub proof fn lemma_entity_value_round_trip(e: EntityView)
    ensures
        entity_of_value(entity_value_view(e)) == Some(e),
{
}

impl Entity {
    /// The entity as a structured value, in the shape of
    /// [`entity_value_view`].
    pub fn to_value(&self) -> (r: Val)
        ensures
            r@ == entity_value_view(self@),
    {
        let mut fields: Vec<(String, Val)> = Vec::new();
        fields.push(("id".to_owned(), Val::Str(self.id.clone())));
        fields.push(("name".to_owned(), Val::Str(self.name.clone())));
        let r = Val::Obj(fields);
        proof {
            reveal_with_fuel(vview, 3);
            assert(vview(r)->Obj_0 =~~= entity_value_view(self@)->Obj_0);
        }
        r
    }

    /// The entity a structured value stands for, or `None` when the value
    /// does not have the encoded shape.
    pub fn from_value(v: &Val) -> (r: Option<Entity>)
        ensures
            match r {
                Some(e) => entity_of_value(v@) == Some(e@),
                None => entity_of_value(v@) is None,
            },
    {
        proof {
            reveal_with_fuel(vview, 3);
        }
        match v {
            Val::Obj(fields) => {
                if fields.len() == 2 && str_eq(fields[0].0.as_str(), "id") && str_eq(
                    fields[1].0.as_str(),
                    "name",
                ) {
                    match (&fields[0].1, &fields[1].1) {
                        (Val::Str(id), Val::Str(name)) => Some(
                            Entity::new(id.clone(), name.clone()),
                        ),
                        _ => None,
                    }
                } else {
                    None
                }
            },
            _ => None,
        }
    }
}

impl Clone for Entity {
    /// The copy has the same id and name.
    fn clone(&self) -> (r: Entity)
        ensures
            r@ == self@,
    {
        Entity { id: self.id.clone(), name: self.name.clone() }
    }
}

impl Default for Entity {
    /// A fresh random id under the anonymous sentinel name.
    fn default() -> (r: Entity)
        ensures
            r@.name == ENTITY_ANONYMOUS@,
            r@.id.len() == 36,
    {
        Entity { id: fresh_uuid_string(), name: ENTITY_ANONYMOUS.to_owned() }
    }
}

impl vstd::std_specs::convert::FromSpecImpl<String> for Entity {
    open spec fn obeys_from_spec() -> bool {
        false
    }

    open spec fn from_spec(v: String) -> Entity {
        arbitrary()
    }
}

impl From<String> for Entity {
    /// An entity named by the given string, with a fresh random id.
    fn from(value: String) -> (r: Entity)
        ensures
            r@.name == value@,
            r@.id.len() == 36,
    {
        Entity::from_name(value)
    }
}

impl Arn for Entity {
    /// Renders as `"arn:{name}/{id}"`.
    fn arn_string(&self) -> (r: String)
        ensures
            r@ == "arn:"@ + self@.name + "/"@ + self@.id,
    {
        let mut s = "arn:".to_owned();
        s.append(self.name.as_str());
        s.append("/");
        s.append(self.id.as_str());
        s
    }

    /// The entity's name.
    fn arn_name(&self) -> (r: String)
        ensures
            r@ == self@.name,
    {
        self.name.clone()
    }
}

} // verus!
