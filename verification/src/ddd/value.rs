use vstd::prelude::*;

verus! {

broadcast use vstd::std_specs::vec::group_vec_axioms;

/// Relies on `str`'s `PartialEq`: string slices are equal exactly when
/// their character sequences are.
#[verifier::external_body]
pub(crate) fn str_eq(a: &str, b: &str) -> (r: bool)
    ensures
        r == (a@ == b@),
{
    a == b
}

/// Mathematical model of a structured value: what a [`Val`] is at the
/// specification level, with strings as character sequences.
pub enum ValView {
    Null,
    Bool(bool),
    Int(int),
    Str(Seq<char>),
    Arr(Seq<ValView>),
    Obj(Seq<(Seq<char>, ValView)>),
}

/// An arbitrary structured value: object, array, string, integer, bool or
/// null. Message payloads and metadata values are `Val`s; the correlation
/// rules treat them as opaque and only copy them around.
#[derive(Debug, PartialEq)]
pub enum Val {
    Null,
    Bool(bool),
    Int(i64),
    Str(String),
    Arr(Vec<Val>),
    Obj(Vec<(String, Val)>),
}

/// The model of a structured value.
pub open spec fn vview(v: Val) -> ValView
    decreases v,
{
    match v {
        Val::Null => ValView::Null,
        Val::Bool(b) => ValView::Bool(b),
        Val::Int(i) => ValView::Int(i as int),
        Val::Str(s) => ValView::Str(s@),
        Val::Arr(a) => {
            proof {
                assert forall|i: int| 0 <= i < a@.len() implies decreases_to!(v => a@[i]) by {
                    assert(decreases_to!(a => a@));
                    assert(decreases_to!(a@ => a@[i]));
                }
            }
            ValView::Arr(
                Seq::new(
                    a@.len(),
                    |i: int|
                        if 0 <= i < a@.len() {
                            vview(a@[i])
                        } else {
                            ValView::Null
                        },
                ),
            )
        },
        Val::Obj(o) => {
            proof {
                assert forall|i: int| 0 <= i < o@.len() implies decreases_to!(v => o@[i].1) by {
                    assert(decreases_to!(o => o@));
                    assert(decreases_to!(o@ => o@[i]));
                    assert(decreases_to!(o@[i] => o@[i].1));
                }
            }
            ValView::Obj(
                Seq::new(
                    o@.len(),
                    |i: int|
                        if 0 <= i < o@.len() {
                            (o@[i].0@, vview(o@[i].1))
                        } else {
                            (Seq::<char>::empty(), ValView::Null)
                        },
                ),
            )
        },
    }
}

impl View for Val {
    type V = ValView;

    open spec fn view(&self) -> ValView {
        vview(*self)
    }
}

impl Val {
    /// A copy of this value; the copy has the same model.
    #[verifier::loop_isolation(false)]
    pub fn dup(&self) -> (r: Val)
        ensures
            r@ == self@,
        decreases *self,
    {
        match self {
            Val::Null => Val::Null,
            Val::Bool(b) => Val::Bool(*b),
            Val::Int(i) => Val::Int(*i),
            Val::Str(s) => Val::Str(s.clone()),
            Val::Arr(a) => {
                let mut out: Vec<Val> = Vec::new();
                let mut i: usize = 0;
                while i < a.len()
                    invariant
                        i <= a.len(),
                        out@.len() == i as int,
                        forall|j: int| 0 <= j < i as int ==> vview(out@[j]) == vview(a@[j]),
                    decreases a.len() - i,
                {
                    proof {
                        assert(self->Arr_0 == *a);
                        assert(decreases_to!(*self => self->Arr_0));
                        assert(decreases_to!(*a => a@));
                        assert(decreases_to!(a@ => a@[i as int]));
                    }
                    let e = a[i].dup();
                    out.push(e);
                    i = i + 1;
                }
                proof {
                    let rr = Val::Arr(out);
                    assert(vview(rr)->Arr_0 =~~= vview(*self)->Arr_0);
                    assert(vview(rr) == vview(*self));
                }
                Val::Arr(out)
            },
            Val::Obj(o) => {
                let mut out: Vec<(String, Val)> = Vec::new();
                let mut i: usize = 0;
                while i < o.len()
                    invariant
                        i <= o.len(),
                        out@.len() == i as int,
                        forall|j: int| 0 <= j < i as int ==> out@[j].0@ == o@[j].0@ && vview(
                            out@[j].1,
                        ) == vview(o@[j].1),
                    decreases o.len() - i,
                {
                    proof {
                        assert(self->Obj_0 == *o);
                        assert(decreases_to!(*self => self->Obj_0));
                        assert(decreases_to!(*o => o@));
                        assert(decreases_to!(o@ => o@[i as int]));
                        assert(decreases_to!(o@[i as int] => o@[i as int].1));
                    }
                    let k = o[i].0.clone();
                    let v = o[i].1.dup();
                    out.push((k, v));
                    i = i + 1;
                }
                proof {
                    let rr = Val::Obj(out);
                    assert(vview(rr)->Obj_0 =~~= vview(*self)->Obj_0);
                    assert(vview(rr) == vview(*self));
                }
                Val::Obj(out)
            },
        }
    }

    /// Whether the value is an object.
    pub fn is_object(&self) -> (r: bool)
        ensures
            r == (self@ is Obj),
    {
        match self {
            Val::Obj(_) => true,
            _ => false,
        }
    }

    /// Whether the value is a number.
    pub fn is_number(&self) -> (r: bool)
        ensures
            r == (self@ is Int),
    {
        match self {
            Val::Int(_) => true,
            _ => false,
        }
    }

    /// The value as a signed integer, if it is a number.
    pub fn as_i64(&self) -> (r: Option<i64>)
        ensures
            match r {
                Some(i) => self@ == ValView::Int(i as int),
                None => !(self@ is Int),
            },
    {
        match self {
            Val::Int(i) => Some(*i),
            _ => None,
        }
    }

    /// The value as a string slice, if it is a string.
    pub fn as_str(&self) -> (r: Option<&str>)
        ensures
            match r {
                Some(s) => self@ == ValView::Str(s@),
                None => !(self@ is Str),
            },
    {
        match self {
            Val::Str(s) => Some(s.as_str()),
            _ => None,
        }
    }
}

impl Clone for Val {
    /// The copy has the same model.
    fn clone(&self) -> (r: Val)
        ensures
            r@ == self@,
    {
        self.dup()
    }
}

} // verus!
